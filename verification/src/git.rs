//! The diff page and the git page: reading a diff, picking what to stage from
//! it, and walking the refs and the history.
use vstd::prelude::*;

use crate::bench::{run_view, step, stepped, viewed, ViewVerb};
use crate::chosen::{behind, strip_mark};
use crate::project::{
    ask_discard, discard_question, opt_kind, ChangeRow, ChangeRowOf, Commit, CommitModel,
};
use crate::text::{cat3, clone_opt, decimal, opt_text, to_decimal};
use crate::types::{
    clone_diff_kind, opt_flow, Bench, BenchModel, BenchOf, DiffKind, DiffKindModel, DiffKindOf,
    Flow, FlowModel, FlowOf, Focus, GitAction, GitActionOf, GitScope, GitScopeOf, KeyCode,
    KeyEvent, Page, PickTarget, ResolveSide, SessionId,
};

verus! {

/// Whether a diff is being read, or lines of it are being picked.
#[derive(Clone, Copy, Debug, PartialEq, Eq, Structural)]
pub enum DiffMode {
    Read,
    Lines,
}

/// A move within a diff, for whoever holds its lines to carry out.
#[derive(Clone, Copy, Debug, PartialEq, Eq, Structural)]
pub enum DiffStep {
    Scroll(isize),
    Pages(isize),
    Line(isize),
    Hunk(isize),
    Top,
    End,
    Fold,
    FoldAll,
    PickLine,
}

/// A diff on screen: what it is of, whether its lines are being picked, what is
/// said below it, and the moves that have been asked for and not yet been
/// carried out.
#[verifier::ext_equal]
#[derive(Clone, Debug, PartialEq, Eq)]
pub struct DiffViewOf<S, Q> {
    pub kind: Option<DiffKindOf<S>>,
    pub mode: DiffMode,
    pub notice: Option<S>,
    pub steps: Q,
}

pub type DiffView = DiffViewOf<String, Vec<DiffStep>>;

pub type DiffViewModel = DiffViewOf<Seq<char>, Seq<DiffStep>>;

impl View for DiffViewOf<String, Vec<DiffStep>> {
    type V = DiffViewModel;

    open spec fn view(&self) -> DiffViewModel {
        DiffViewOf {
            kind: opt_kind(self.kind),
            mode: self.mode,
            notice: opt_text(self.notice),
            steps: self.steps@,
        }
    }
}

/// No diff.
pub open spec fn no_diff() -> DiffViewModel {
    DiffViewOf { kind: None, mode: DiffMode::Read, notice: None, steps: Seq::empty() }
}

impl Default for DiffViewOf<String, Vec<DiffStep>> {
    fn default() -> (d: Self)
        ensures
            d@ == no_diff(),
    {
        let d: DiffView = DiffViewOf {
            kind: None,
            mode: DiffMode::Read,
            notice: None,
            steps: Vec::new(),
        };
        assert(d.steps@ =~= Seq::empty());
        d
    }
}

/// A diff as it opens: to be read.
pub open spec fn fresh_diff(kind: DiffKindModel) -> DiffViewModel {
    DiffViewOf { kind: Some(kind), ..no_diff() }
}

/// A diff with one more move asked for.
pub open spec fn asked(d: DiffViewModel, s: DiffStep) -> DiffViewModel {
    DiffViewOf { steps: d.steps.push(s), ..d }
}

/// Whether a diff is of something that can be staged or thrown away.
pub open spec fn is_mutable(d: DiffViewModel) -> bool {
    match d.kind {
        Some(kind) => kind.mutable(),
        None => false,
    }
}

/// Whether a revision names a stash.
pub open spec fn is_stash(rev: Seq<char>) -> bool {
    behind(rev, "stash@{"@) is Some
}

/// Whether a diff is one that was opened from the history: one of a commit is,
/// while a stash and what can be staged are opened from the refs.
pub open spec fn from_history(kind: Option<DiffKindModel>) -> bool {
    match kind {
        Some(DiffKindOf::Commit { id, summary }) => !is_stash(id),
        Some(_) => false,
        None => true,
    }
}

fn opened_from_history(kind: &Option<DiffKind>) -> (r: bool)
    ensures
        r == from_history(opt_kind(*kind)),
{
    match kind {
        Some(DiffKind::Commit { id, .. }) => strip_mark(id.as_str(), "stash@{").is_none(),
        Some(_) => false,
        None => true,
    }
}

impl DiffViewOf<String, Vec<DiffStep>> {
    /// A diff as it opens: to be read.
    pub fn new(kind: DiffKind) -> (d: DiffView)
        ensures
            d@ == fresh_diff(kind@),
    {
        let d: DiffView = DiffViewOf {
            kind: Some(kind),
            mode: DiffMode::Read,
            notice: None,
            steps: Vec::new(),
        };
        assert(d.steps@ =~= Seq::empty());
        d
    }

    /// Starts picking lines.
    pub fn line_select(&mut self)
        ensures
            final(self)@ == (DiffViewOf { mode: DiffMode::Lines, ..old(self)@ }),
    {
        self.mode = DiffMode::Lines;
    }

    /// Stops picking lines.
    pub fn cancel_line_select(&mut self)
        ensures
            final(self)@ == (DiffViewOf { mode: DiffMode::Read, ..old(self)@ }),
    {
        self.mode = DiffMode::Read;
    }

    /// Asks for a move within the diff.
    pub fn ask(&mut self, s: DiffStep)
        ensures
            final(self)@ == asked(old(self)@, s),
    {
        self.steps.push(s);
    }
}

/// What a key does on the diff page. Escape backs out of picking lines before
/// it closes the page, and enter applies only what was picked.
pub open spec fn diff_key(k: KeyEvent, v: BenchModel, d: DiffViewModel) -> (
    BenchModel,
    DiffViewModel,
    Option<FlowModel>,
) {
    let lines = d.mode is Lines;
    let shut = (BenchOf { page: Page::Agents, ..v }, d, Some(FlowOf::Continue));
    let go = |s: DiffStep| (v, asked(d, s), Some(FlowOf::<Seq<char>>::Continue));
    let down = if lines {
        go(DiffStep::Line(1))
    } else {
        go(DiffStep::Scroll(1))
    };
    let up = if lines {
        go(DiffStep::Line((-1) as isize))
    } else {
        go(DiffStep::Scroll((-1) as isize))
    };
    let toggled = (
        v,
        DiffViewOf {
            mode: if lines {
                DiffMode::Read
            } else {
                DiffMode::Lines
            },
            ..d
        },
        Some(FlowOf::<Seq<char>>::Continue),
    );
    match k.code {
        KeyCode::Esc => if lines {
            toggled
        } else {
            shut
        },
        KeyCode::Down => down,
        KeyCode::Up => up,
        KeyCode::PageDown => go(DiffStep::Pages(1)),
        KeyCode::PageUp => go(DiffStep::Pages((-1) as isize)),
        KeyCode::Home => go(DiffStep::Top),
        KeyCode::End => go(DiffStep::End),
        KeyCode::Enter => if lines {
            (v, d, Some(FlowOf::ApplyDiff { discard: false }))
        } else {
            (v, d, None)
        },
        KeyCode::Char(c) => if c == 'q' {
            shut
        } else if c == 'j' {
            down
        } else if c == 'k' {
            up
        } else if c == 'g' {
            go(DiffStep::Top)
        } else if c == 'G' {
            go(DiffStep::End)
        } else if c == ']' {
            go(DiffStep::Hunk(1))
        } else if c == '[' {
            go(DiffStep::Hunk((-1) as isize))
        } else if c == 'v' {
            toggled
        } else if c == ' ' {
            if lines {
                go(DiffStep::PickLine)
            } else {
                (v, d, Some(FlowOf::ApplyDiff { discard: false }))
            }
        } else if c == 'x' {
            (v, d, Some(FlowOf::ApplyDiff { discard: true }))
        } else if c == 'r' {
            match d.kind {
                Some(kind) => (v, d, Some(FlowOf::OpenDiff { kind, keep_cursor: true })),
                None => (v, d, None),
            }
        } else {
            (v, d, None)
        },
        _ => (v, d, None),
    }
}

/// Does what a key does on the diff page.
pub fn handle_diff_key(k: KeyEvent, view: &mut Bench, diff: &mut DiffView) -> (r: Option<Flow>)
    ensures
        (final(view)@, final(diff)@, opt_flow(r)) == diff_key(k, old(view)@, old(diff)@),
{
    let lines = diff.mode == DiffMode::Lines;
    let shut = match k.code {
        KeyCode::Esc => !lines,
        KeyCode::Char('q') => true,
        _ => false,
    };
    if shut {
        view.page = Page::Agents;
        return Some(Flow::Continue);
    }
    match k.code {
        KeyCode::Esc => diff.cancel_line_select(),
        KeyCode::Down | KeyCode::Char('j') => {
            if lines {
                diff.ask(DiffStep::Line(1));
            } else {
                diff.ask(DiffStep::Scroll(1));
            }
        },
        KeyCode::Up | KeyCode::Char('k') => {
            if lines {
                diff.ask(DiffStep::Line(-1));
            } else {
                diff.ask(DiffStep::Scroll(-1));
            }
        },
        KeyCode::PageDown => diff.ask(DiffStep::Pages(1)),
        KeyCode::PageUp => diff.ask(DiffStep::Pages(-1)),
        KeyCode::Home | KeyCode::Char('g') => diff.ask(DiffStep::Top),
        KeyCode::End | KeyCode::Char('G') => diff.ask(DiffStep::End),
        KeyCode::Char(']') => diff.ask(DiffStep::Hunk(1)),
        KeyCode::Char('[') => diff.ask(DiffStep::Hunk(-1)),
        KeyCode::Char('v') => {
            if lines {
                diff.cancel_line_select();
            } else {
                diff.line_select();
            }
        },
        KeyCode::Char(' ') => {
            if !lines {
                return Some(Flow::ApplyDiff { discard: false });
            }
            diff.ask(DiffStep::PickLine);
        },
        KeyCode::Enter => {
            return if lines {
                Some(Flow::ApplyDiff { discard: false })
            } else {
                None
            };
        },
        KeyCode::Char('x') => {
            return Some(Flow::ApplyDiff { discard: true });
        },
        KeyCode::Char('r') => {
            return match &diff.kind {
                Some(kind) => Some(
                    Flow::OpenDiff { kind: clone_diff_kind(kind), keep_cursor: true },
                ),
                None => None,
            };
        },
        _ => {
            return None;
        },
    }
    Some(Flow::Continue)
}

/// Enter applies nothing while a diff is being read, and escape while lines
/// are being picked leaves the page and the diff where they were.
pub proof fn picking_is_left_before_the_page(v: BenchModel, d: DiffViewModel, k: KeyEvent)
    ensures
        k.code is Enter && d.mode is Read ==> diff_key(k, v, d).2 is None,
        k.code is Esc && d.mode is Lines ==> diff_key(k, v, d).0 == v && diff_key(k, v, d).1
            == (DiffViewOf { mode: DiffMode::Read, ..d }),
        k.code is Esc && d.mode is Read ==> diff_key(k, v, d).0.page is Agents,
        diff_key(k, v, d).2 != Some(FlowOf::<Seq<char>>::Detach),
{
}

/// A verb that the footer of a list advertises.
#[derive(Clone, Copy, Debug, PartialEq, Eq, Structural)]
pub enum VerbId {
    NewAgent,
    PickAgent,
    NewShell,
    Restart,
    Kill,
    Refresh,
    GitMenu,
    Help,
    GoToChanges,
    Stage,
    Unstage,
    Discard,
    ResolveOurs,
    ResolveTheirs,
    ResolveDone,
    Diff,
    Scope,
    Show,
    Checkout,
    Merge,
    DeleteBranch,
    Fetch,
    TagDelete,
    StashPop,
    StashDrop,
    OpenWorktree,
    RemoveWorktree,
    CopySha,
    Revert,
    CherryPick,
    Other,
}

/// A verb and the key it is advertised under. Enter is written as a newline.
#[derive(Clone, Copy, Debug, PartialEq, Eq, Structural)]
pub struct Verb {
    pub key: char,
    pub id: VerbId,
}

/// The verb that a key names in a footer: the first that is advertised under
/// it.
pub open spec fn verb_named(verbs: Seq<Verb>, key: char) -> Option<VerbId>
    decreases verbs.len(),
{
    if verbs.len() == 0 {
        None
    } else if verbs[0].key == key {
        Some(verbs[0].id)
    } else {
        verb_named(verbs.skip(1), key)
    }
}

/// Finds the verb that a key names in a footer.
pub fn find_verb(verbs: &Vec<Verb>, key: char) -> (r: Option<VerbId>)
    ensures
        r == verb_named(verbs@, key),
{
    let mut i: usize = 0;
    assert(verbs@.skip(0) =~= verbs@);
    while i < verbs.len()
        invariant
            i <= verbs@.len(),
            verb_named(verbs@.skip(i as int), key) == verb_named(verbs@, key),
        decreases verbs@.len() - i,
    {
        assert(verbs@.skip(i as int).skip(1) =~= verbs@.skip(i as int + 1));
        if verbs[i].key == key {
            return Some(verbs[i].id);
        }
        i = i + 1;
    }
    None
}

/// A row of the refs: the working tree, one of its changes, or something that
/// the repository knows by name. A heading is none of these.
#[verifier::ext_equal]
#[derive(Clone, Debug, PartialEq, Eq)]
pub enum RefRowOf<S> {
    Heading,
    WorkingTree,
    Change(ChangeRowOf<S>),
    Branch { name: S },
    Tag(S),
    Remote { name: S },
    Stash { index: usize, message: S },
    /// A checkout of the repository: the workspace that is open on it, where
    /// there is one, and whether that is the one that is showing.
    Worktree { path: S, workspace: Option<SessionId>, here: bool },
}

pub type RefRow = RefRowOf<String>;

pub type RefRowModel = RefRowOf<Seq<char>>;

impl View for RefRowOf<String> {
    type V = RefRowOf<Seq<char>>;

    open spec fn view(&self) -> RefRowOf<Seq<char>> {
        match *self {
            RefRowOf::Heading => RefRowOf::Heading,
            RefRowOf::WorkingTree => RefRowOf::WorkingTree,
            RefRowOf::Change(c) => RefRowOf::Change(c@),
            RefRowOf::Branch { name } => RefRowOf::Branch { name: name@ },
            RefRowOf::Tag(n) => RefRowOf::Tag(n@),
            RefRowOf::Remote { name } => RefRowOf::Remote { name: name@ },
            RefRowOf::Stash { index, message } => RefRowOf::Stash { index, message: message@ },
            RefRowOf::Worktree { path, workspace, here } => RefRowOf::Worktree {
                path: path@,
                workspace,
                here,
            },
        }
    }
}

/// What a list of refs holds.
pub open spec fn refs_model(v: Seq<RefRow>) -> Seq<RefRowModel> {
    Seq::new(v.len(), |i: int| v[i]@)
}

/// What a list of commits holds.
pub open spec fn log_model(v: Seq<Commit>) -> Seq<CommitModel> {
    Seq::new(v.len(), |i: int| v[i]@)
}

/// The git page: its two cursors, the history it lists, the diff that is open
/// beside the lists, and what the history is of.
#[verifier::ext_equal]
#[derive(Clone, Debug, PartialEq, Eq)]
pub struct GitOf<S, Q, L> {
    pub refs_sel: usize,
    pub hist_sel: usize,
    pub log: L,
    pub more: bool,
    pub body: Option<DiffViewOf<S, Q>>,
    pub scope: GitScopeOf<S>,
    pub loaded: bool,
}

pub type Git = GitOf<String, Vec<DiffStep>, Vec<Commit>>;

pub type GitModel = GitOf<Seq<char>, Seq<DiffStep>, Seq<CommitModel>>;

/// What an optional diff on screen is.
pub open spec fn opt_diff(d: Option<DiffView>) -> Option<DiffViewModel> {
    match d {
        Some(d) => Some(d@),
        None => None,
    }
}

impl View for GitOf<String, Vec<DiffStep>, Vec<Commit>> {
    type V = GitModel;

    open spec fn view(&self) -> GitModel {
        GitOf {
            refs_sel: self.refs_sel,
            hist_sel: self.hist_sel,
            log: log_model(self.log@),
            more: self.more,
            body: opt_diff(self.body),
            scope: self.scope@,
            loaded: self.loaded,
        }
    }
}

/// The git page before anything has been read.
pub open spec fn blank_git() -> GitModel {
    GitOf {
        refs_sel: 0,
        hist_sel: 0,
        log: Seq::empty(),
        more: false,
        body: None,
        scope: GitScopeOf::Everything,
        loaded: false,
    }
}

impl Default for GitOf<String, Vec<DiffStep>, Vec<Commit>> {
    fn default() -> (g: Self)
        ensures
            g@ == blank_git(),
    {
        let g: Git = GitOf {
            refs_sel: 0,
            hist_sel: 0,
            log: Vec::new(),
            more: false,
            body: None,
            scope: GitScopeOf::Everything,
            loaded: false,
        };
        assert(log_model(g.log@) =~= Seq::empty());
        g
    }
}

/// The commit that the cursor of the history is on.
pub open spec fn commit_at(g: GitModel) -> Option<CommitModel> {
    if g.hist_sel < g.log.len() {
        Some(g.log[g.hist_sel as int])
    } else {
        None
    }
}

/// The row that the cursor of the refs is on.
pub open spec fn ref_at(rows: Seq<RefRowModel>, g: GitModel) -> Option<RefRowModel> {
    if g.refs_sel < rows.len() {
        Some(rows[g.refs_sel as int])
    } else {
        None
    }
}

/// The diff that a row of the refs stands for.
pub open spec fn diff_of_ref(row: Option<RefRowModel>) -> Option<DiffKindModel> {
    match row {
        Some(RefRowOf::WorkingTree) => Some(DiffKindOf::Unstaged { path: None }),
        Some(RefRowOf::Change(ChangeRowOf::File { path, staged })) => if staged {
            Some(DiffKindOf::Staged { path: Some(path) })
        } else {
            Some(DiffKindOf::Unstaged { path: Some(path) })
        },
        Some(RefRowOf::Change(ChangeRowOf::Conflicted { path })) => Some(
            DiffKindOf::Unstaged { path: Some(path) },
        ),
        _ => None,
    }
}

/// What a verb of the git page does, on the row that the cursor is on. A verb
/// that the row has no use for does nothing, or is no verb there at all.
pub open spec fn git_verb(
    id: VerbId,
    v: BenchModel,
    g: GitModel,
    rows: Seq<RefRowModel>,
) -> (BenchModel, Option<FlowModel>) {
    let row = ref_at(rows, g);
    let only = |f: FlowModel| (v, Some(f));
    let none = (v, None::<FlowModel>);
    let pick = |target: PickTarget|
        match row {
            Some(RefRowOf::Branch { name }) => (
                v,
                Some(FlowOf::Pick { target, value: name }),
            ),
            _ => (v, None),
        };
    match id {
        VerbId::Refresh => only(FlowOf::GitRefresh),
        VerbId::GitMenu => only(FlowOf::GitMenu),
        VerbId::Help => (viewed(ViewVerb::Help, v).0, Some(viewed(ViewVerb::Help, v).1)),
        VerbId::GoToChanges => (
            BenchOf { page: Page::Agents, focus: Focus::Changes, ..v },
            Some(FlowOf::Continue),
        ),
        VerbId::Stage => match row {
            Some(RefRowOf::Change(ChangeRowOf::File { path, staged: false })) => only(
                FlowOf::Git(GitActionOf::Stage(path)),
            ),
            _ => none,
        },
        VerbId::Unstage => match row {
            Some(RefRowOf::Change(ChangeRowOf::File { path, staged: true })) => only(
                FlowOf::Git(GitActionOf::Unstage(path)),
            ),
            _ => none,
        },
        VerbId::Discard => match row {
            Some(RefRowOf::Change(ChangeRowOf::File { path, staged: false })) => (
                BenchOf { overlay: Some(discard_question(path)), ..v },
                Some(FlowOf::Continue),
            ),
            _ => none,
        },
        VerbId::ResolveOurs | VerbId::ResolveTheirs | VerbId::ResolveDone => match row {
            Some(RefRowOf::Change(ChangeRowOf::Conflicted { path })) => only(
                FlowOf::Git(
                    GitActionOf::Resolve {
                        path,
                        take: if id is ResolveOurs {
                            ResolveSide::Ours
                        } else if id is ResolveTheirs {
                            ResolveSide::Theirs
                        } else {
                            ResolveSide::Resolved
                        },
                    },
                ),
            ),
            _ => none,
        },
        VerbId::Diff => match diff_of_ref(row) {
            Some(kind) => only(FlowOf::GitOpenDiff { kind, keep_cursor: false }),
            None => none,
        },
        VerbId::Scope => match row {
            Some(RefRowOf::Branch { name }) => only(FlowOf::GitScope(GitScopeOf::Ref(name))),
            Some(RefRowOf::Tag(name)) => only(FlowOf::GitScope(GitScopeOf::Ref(name))),
            Some(_) => only(FlowOf::Continue),
            None => none,
        },
        VerbId::Show => match row {
            Some(RefRowOf::Stash { index, message }) => if v.focus is Refs {
                only(
                    FlowOf::GitShowRev {
                        rev: "stash@{"@ + decimal(index as nat) + "}"@,
                        title: message,
                    },
                )
            } else {
                only(FlowOf::GitOpenCommit)
            },
            _ => only(FlowOf::GitOpenCommit),
        },
        VerbId::Checkout => pick(PickTarget::Checkout),
        VerbId::Merge => pick(PickTarget::Merge),
        VerbId::DeleteBranch => match row {
            Some(RefRowOf::Branch { name }) => only(
                FlowOf::ConfirmPick { target: PickTarget::DeleteBranch, value: name },
            ),
            _ => none,
        },
        VerbId::Fetch => match row {
            Some(RefRowOf::Remote { name }) => only(FlowOf::GitFetch(name)),
            Some(_) => only(FlowOf::Continue),
            None => none,
        },
        VerbId::TagDelete => match row {
            Some(RefRowOf::Tag(name)) => only(
                FlowOf::ConfirmPick { target: PickTarget::TagDelete, value: name },
            ),
            Some(_) => only(FlowOf::Continue),
            None => none,
        },
        VerbId::StashPop => match row {
            Some(RefRowOf::Stash { index, message }) => only(
                FlowOf::Pick { target: PickTarget::StashPop, value: decimal(index as nat) },
            ),
            Some(_) => only(FlowOf::Continue),
            None => none,
        },
        VerbId::StashDrop => match row {
            Some(RefRowOf::Stash { index, message }) => only(
                FlowOf::ConfirmPick { target: PickTarget::StashDrop, value: decimal(index as nat) },
            ),
            Some(_) => only(FlowOf::Continue),
            None => none,
        },
        VerbId::OpenWorktree => match row {
            Some(RefRowOf::Worktree { path, workspace, here: false }) => only(
                match workspace {
                    Some(workspace) => FlowOf::GoWorktree { workspace, path },
                    None => FlowOf::Pick { target: PickTarget::OpenWorktree, value: path },
                },
            ),
            Some(_) => only(FlowOf::Continue),
            None => none,
        },
        VerbId::RemoveWorktree => match row {
            Some(RefRowOf::Worktree { path, workspace, here: false }) => only(
                FlowOf::ConfirmPick { target: PickTarget::RemoveWorktree, value: path },
            ),
            Some(_) => only(FlowOf::Continue),
            None => none,
        },
        VerbId::CopySha => only(FlowOf::GitCopySha),
        VerbId::Revert => match commit_at(g) {
            Some(c) => only(FlowOf::Pick { target: PickTarget::Revert, value: c.id }),
            None => none,
        },
        VerbId::CherryPick => match commit_at(g) {
            Some(c) => only(FlowOf::Pick { target: PickTarget::CherryPick, value: c.id }),
            None => none,
        },
        _ => none,
    }
}

fn commit_id(git: &Git) -> (r: Option<String>)
    ensures
        match r {
            Some(id) => commit_at(git@) is Some && id@ == commit_at(git@)->0.id,
            None => commit_at(git@) is None,
        },
{
    if git.hist_sel < git.log.len() {
        assert(log_model(git.log@)[git.hist_sel as int] == git.log@[git.hist_sel as int]@);
        Some(git.log[git.hist_sel].id.clone())
    } else {
        None
    }
}

/// Does what a verb of the git page does.
#[verifier::rlimit(40)]
pub fn git_verb_flow(id: VerbId, view: &mut Bench, git: &Git, rows: &Vec<RefRow>) -> (r: Option<
    Flow,
>)
    ensures
        (final(view)@, opt_flow(r)) == git_verb(id, old(view)@, git@, refs_model(rows@)),
{
    let row: Option<&RefRow> = if git.refs_sel < rows.len() {
        assert(refs_model(rows@)[git.refs_sel as int] == rows@[git.refs_sel as int]@);
        Some(&rows[git.refs_sel])
    } else {
        None
    };
    match id {
        VerbId::Refresh => Some(Flow::GitRefresh),
        VerbId::GitMenu => Some(Flow::GitMenu),
        VerbId::Help => Some(run_view(ViewVerb::Help, view)),
        VerbId::GoToChanges => {
            view.page = Page::Agents;
            view.focus = Focus::Changes;
            Some(Flow::Continue)
        },
        VerbId::Stage => match row {
            Some(RefRow::Change(ChangeRow::File { path, staged: false })) => Some(
                Flow::Git(GitAction::Stage(path.clone())),
            ),
            _ => None,
        },
        VerbId::Unstage => match row {
            Some(RefRow::Change(ChangeRow::File { path, staged: true })) => Some(
                Flow::Git(GitAction::Unstage(path.clone())),
            ),
            _ => None,
        },
        VerbId::Discard => match row {
            Some(RefRow::Change(ChangeRow::File { path, staged: false })) => {
                view.overlay = Some(ask_discard(path.clone()));
                Some(Flow::Continue)
            },
            _ => None,
        },
        VerbId::ResolveOurs => match row {
            Some(RefRow::Change(ChangeRow::Conflicted { path })) => Some(
                Flow::Git(GitAction::Resolve { path: path.clone(), take: ResolveSide::Ours }),
            ),
            _ => None,
        },
        VerbId::ResolveTheirs => match row {
            Some(RefRow::Change(ChangeRow::Conflicted { path })) => Some(
                Flow::Git(GitAction::Resolve { path: path.clone(), take: ResolveSide::Theirs }),
            ),
            _ => None,
        },
        VerbId::ResolveDone => match row {
            Some(RefRow::Change(ChangeRow::Conflicted { path })) => Some(
                Flow::Git(GitAction::Resolve { path: path.clone(), take: ResolveSide::Resolved }),
            ),
            _ => None,
        },
        VerbId::Diff => match row {
            Some(RefRow::WorkingTree) => Some(
                Flow::GitOpenDiff { kind: DiffKind::Unstaged { path: None }, keep_cursor: false },
            ),
            Some(RefRow::Change(ChangeRow::File { path, staged })) => {
                let path = Some(path.clone());
                let kind = if *staged {
                    DiffKind::Staged { path }
                } else {
                    DiffKind::Unstaged { path }
                };
                Some(Flow::GitOpenDiff { kind, keep_cursor: false })
            },
            Some(RefRow::Change(ChangeRow::Conflicted { path })) => Some(
                Flow::GitOpenDiff {
                    kind: DiffKind::Unstaged { path: Some(path.clone()) },
                    keep_cursor: false,
                },
            ),
            _ => None,
        },
        VerbId::Scope => match row {
            Some(RefRow::Branch { name }) => Some(Flow::GitScope(GitScope::Ref(name.clone()))),
            Some(RefRow::Tag(name)) => Some(Flow::GitScope(GitScope::Ref(name.clone()))),
            Some(_) => Some(Flow::Continue),
            None => None,
        },
        VerbId::Show => match row {
            Some(RefRow::Stash { index, message }) if view.focus == Focus::Refs => {
                let n = to_decimal(*index as u128);
                Some(
                    Flow::GitShowRev {
                        rev: cat3("stash@{", n.as_str(), "}"),
                        title: message.clone(),
                    },
                )
            },
            _ => Some(Flow::GitOpenCommit),
        },
        VerbId::Checkout => match row {
            Some(RefRow::Branch { name }) => Some(
                Flow::Pick { target: PickTarget::Checkout, value: name.clone() },
            ),
            _ => None,
        },
        VerbId::Merge => match row {
            Some(RefRow::Branch { name }) => Some(
                Flow::Pick { target: PickTarget::Merge, value: name.clone() },
            ),
            _ => None,
        },
        VerbId::DeleteBranch => match row {
            Some(RefRow::Branch { name }) => Some(
                Flow::ConfirmPick { target: PickTarget::DeleteBranch, value: name.clone() },
            ),
            _ => None,
        },
        VerbId::Fetch => match row {
            Some(RefRow::Remote { name }) => Some(Flow::GitFetch(name.clone())),
            Some(_) => Some(Flow::Continue),
            None => None,
        },
        VerbId::TagDelete => match row {
            Some(RefRow::Tag(name)) => Some(
                Flow::ConfirmPick { target: PickTarget::TagDelete, value: name.clone() },
            ),
            Some(_) => Some(Flow::Continue),
            None => None,
        },
        VerbId::StashPop => match row {
            Some(RefRow::Stash { index, .. }) => Some(
                Flow::Pick { target: PickTarget::StashPop, value: to_decimal(*index as u128) },
            ),
            Some(_) => Some(Flow::Continue),
            None => None,
        },
        VerbId::StashDrop => match row {
            Some(RefRow::Stash { index, .. }) => Some(
                Flow::ConfirmPick {
                    target: PickTarget::StashDrop,
                    value: to_decimal(*index as u128),
                },
            ),
            Some(_) => Some(Flow::Continue),
            None => None,
        },
        VerbId::OpenWorktree => match row {
            Some(RefRow::Worktree { path, workspace, here: false }) => Some(
                match workspace {
                    Some(workspace) => Flow::GoWorktree {
                        workspace: *workspace,
                        path: path.clone(),
                    },
                    None => Flow::Pick { target: PickTarget::OpenWorktree, value: path.clone() },
                },
            ),
            Some(_) => Some(Flow::Continue),
            None => None,
        },
        VerbId::RemoveWorktree => match row {
            Some(RefRow::Worktree { path, here: false, .. }) => Some(
                Flow::ConfirmPick { target: PickTarget::RemoveWorktree, value: path.clone() },
            ),
            Some(_) => Some(Flow::Continue),
            None => None,
        },
        VerbId::CopySha => Some(Flow::GitCopySha),
        VerbId::Revert => match commit_id(git) {
            Some(id) => Some(Flow::Pick { target: PickTarget::Revert, value: id }),
            None => None,
        },
        VerbId::CherryPick => match commit_id(git) {
            Some(id) => Some(Flow::Pick { target: PickTarget::CherryPick, value: id }),
            None => None,
        },
        _ => None,
    }
}

/// A pick that destroys something is never carried out by a verb of the git
/// page: it goes through the question first. And the worktree that is open is
/// neither opened again nor removed.
pub proof fn a_git_verb_destroys_nothing_unasked(
    id: VerbId,
    v: BenchModel,
    g: GitModel,
    rows: Seq<RefRowModel>,
)
    ensures
        git_verb(id, v, g, rows).1 matches Some(FlowOf::Pick { target, value }) ==> !target.destroys(),
        !(git_verb(id, v, g, rows).1 matches Some(FlowOf::Git(GitActionOf::Discard(_)))),
        ref_at(rows, g) matches Some(RefRowOf::Worktree { path, workspace, here: true }) && (id is OpenWorktree
            || id is RemoveWorktree) ==> git_verb(id, v, g, rows) == (
            v,
            Some(FlowOf::<Seq<char>>::Continue),
        ),
{
}

/// The verbs that the footer of the git page advertises: for the row of the
/// refs that the cursor is on, for a commit, and where there is no commit.
#[derive(Clone, Debug, PartialEq, Eq)]
pub struct GitFooters {
    pub refs: Vec<Verb>,
    pub commit: Vec<Verb>,
    pub none: Vec<Verb>,
}

/// What a key does to the diff that is open beside the lists. A commit's diff
/// answers to none of the keys that stage or throw away.
pub open spec fn body_key(k: KeyEvent, v: BenchModel, g: GitModel, d: DiffViewModel, rows: u16) -> (
    BenchModel,
    GitModel,
    Option<FlowModel>,
) {
    let lines = d.mode is Lines;
    let can = is_mutable(d);
    let page: int = if rows > 0 {
        rows as int
    } else {
        1
    };
    let go = |s: DiffStep|
        (v, GitOf { body: Some(asked(d, s)), ..g }, Some(FlowOf::<Seq<char>>::Continue));
    let mode = |m: DiffMode|
        (
            v,
            GitOf { body: Some(DiffViewOf { mode: m, ..d }), ..g },
            Some(FlowOf::<Seq<char>>::Continue),
        );
    let none = (v, g, None::<FlowModel>);
    let apply = |discard: bool| (v, g, Some(FlowOf::<Seq<char>>::ApplyDiff { discard }));
    let down = if lines {
        go(DiffStep::Line(1))
    } else {
        go(DiffStep::Scroll(1))
    };
    let up = if lines {
        go(DiffStep::Line((-1) as isize))
    } else {
        go(DiffStep::Scroll((-1) as isize))
    };
    match k.code {
        KeyCode::Down => down,
        KeyCode::Up => up,
        KeyCode::PageDown => go(DiffStep::Scroll(page as isize)),
        KeyCode::PageUp => go(DiffStep::Scroll((-page) as isize)),
        KeyCode::Enter => if can && lines {
            apply(false)
        } else {
            none
        },
        KeyCode::Esc => if lines {
            mode(DiffMode::Read)
        } else {
            (
                BenchOf {
                    focus: if from_history(d.kind) {
                        Focus::History
                    } else {
                        Focus::Refs
                    },
                    ..v
                },
                GitOf { body: None, ..g },
                Some(FlowOf::<Seq<char>>::Continue),
            )
        },
        KeyCode::Char(c) => if c == 'j' {
            down
        } else if c == 'k' {
            up
        } else if c == ']' {
            go(DiffStep::Hunk(1))
        } else if c == '[' {
            go(DiffStep::Hunk((-1) as isize))
        } else if c == 'z' {
            go(DiffStep::Fold)
        } else if c == 'Z' {
            go(DiffStep::FoldAll)
        } else if !can {
            none
        } else if c == ' ' {
            if lines {
                go(DiffStep::PickLine)
            } else {
                apply(false)
            }
        } else if c == 'v' {
            mode(
                if lines {
                    DiffMode::Read
                } else {
                    DiffMode::Lines
                },
            )
        } else if c == 'x' {
            apply(true)
        } else {
            none
        },
        _ => none,
    }
}

/// How far a key moves a cursor of the git page in a list of `len` rows.
pub open spec fn git_step(code: KeyCode, len: int, rows: u16) -> int {
    let page: int = if rows > 0 {
        rows as int
    } else {
        1
    };
    match code {
        KeyCode::Down => 1,
        KeyCode::Up => -1,
        KeyCode::PageDown => page,
        KeyCode::PageUp => -page,
        KeyCode::Home => -len,
        KeyCode::End => len,
        KeyCode::Char(c) => if c == 'j' {
            1
        } else if c == 'k' {
            -1
        } else {
            0
        },
        _ => 0,
    }
}

/// The verbs that the footer of the history advertises.
pub open spec fn history_verbs(g: GitModel, footers: GitFooters) -> Seq<Verb> {
    if g.log.len() == 0 {
        footers.none@
    } else {
        footers.commit@
    }
}

/// What a key does in one of the two lists of the git page.
pub open spec fn lists_key(
    k: KeyEvent,
    v: BenchModel,
    g: GitModel,
    refs: Seq<RefRowModel>,
    rows: u16,
    footers: GitFooters,
) -> (BenchModel, GitModel, Option<FlowModel>) {
    let on_refs = v.focus is Refs;
    let len = if on_refs {
        refs.len() as int
    } else {
        g.log.len() as int
    };
    let by = git_step(k.code, len, rows);
    if by != 0 {
        let to = stepped(
            (if on_refs {
                g.refs_sel
            } else {
                g.hist_sel
            }) as int,
            by,
            len,
        ) as usize;
        (
            v,
            if on_refs {
                GitOf { refs_sel: to, ..g }
            } else {
                GitOf { hist_sel: to, ..g }
            },
            Some(FlowOf::Continue),
        )
    } else if k.code is Esc && g.scope !is Everything {
        (v, g, Some(FlowOf::GitScope(GitScopeOf::Everything)))
    } else {
        let verbs = if on_refs {
            footers.refs@
        } else {
            history_verbs(g, footers)
        };
        let named = match k.code {
            KeyCode::Enter => verb_named(verbs, '\n'),
            KeyCode::Char(c) => verb_named(verbs, c),
            _ => None,
        };
        match named {
            Some(id) => (git_verb(id, v, g, refs).0, g, git_verb(id, v, g, refs).1),
            None => (v, g, None),
        }
    }
}

/// What a key does on the git page. Tab walks the lists, and the diff beside
/// them only while one is open; a keyboard left on a diff that has gone is
/// back in the history.
pub open spec fn git_key(
    k: KeyEvent,
    v: BenchModel,
    g: GitModel,
    refs: Seq<RefRowModel>,
    rows: u16,
    footers: GitFooters,
) -> (BenchModel, GitModel, Option<FlowModel>) {
    if k.code is Tab {
        let focus = match v.focus {
            Focus::Refs => Focus::History,
            Focus::History => if g.body is Some {
                Focus::Stage
            } else {
                Focus::Refs
            },
            _ => Focus::Refs,
        };
        (BenchOf { focus, ..v }, g, Some(FlowOf::Continue))
    } else {
        match (v.focus, g.body) {
            (Focus::Stage, Some(d)) => body_key(k, v, g, d, rows),
            (Focus::Stage, None) => lists_key(
                k,
                BenchOf { focus: Focus::History, ..v },
                g,
                refs,
                rows,
                footers,
            ),
            _ => lists_key(k, v, g, refs, rows, footers),
        }
    }
}

fn handle_body_key(k: KeyEvent, view: &mut Bench, git: &mut Git, d: DiffView, rows: u16) -> (r:
    Option<Flow>)
    requires
        old(git)@.body == Some(d@),
    ensures
        (final(view)@, final(git)@, opt_flow(r)) == body_key(
            k,
            old(view)@,
            old(git)@,
            d@,
            rows,
        ),
{
    let mut body = d;
    let lines = body.mode == DiffMode::Lines;
    let can = match &body.kind {
        Some(kind) => kind.mutable(),
        None => false,
    };
    let page: isize = if rows > 0 {
        rows as isize
    } else {
        1
    };
    match k.code {
        KeyCode::Char('j') | KeyCode::Down => {
            if lines {
                body.ask(DiffStep::Line(1));
            } else {
                body.ask(DiffStep::Scroll(1));
            }
        },
        KeyCode::Char('k') | KeyCode::Up => {
            if lines {
                body.ask(DiffStep::Line(-1));
            } else {
                body.ask(DiffStep::Scroll(-1));
            }
        },
        KeyCode::PageDown => body.ask(DiffStep::Scroll(page)),
        KeyCode::PageUp => body.ask(DiffStep::Scroll(-page)),
        KeyCode::Char(']') => body.ask(DiffStep::Hunk(1)),
        KeyCode::Char('[') => body.ask(DiffStep::Hunk(-1)),
        KeyCode::Char('z') => body.ask(DiffStep::Fold),
        KeyCode::Char('Z') => body.ask(DiffStep::FoldAll),
        KeyCode::Char(' ') if can && lines => body.ask(DiffStep::PickLine),
        KeyCode::Char(' ') if can => {
            return Some(Flow::ApplyDiff { discard: false });
        },
        KeyCode::Enter if can && lines => {
            return Some(Flow::ApplyDiff { discard: false });
        },
        KeyCode::Char('v') if can && lines => body.cancel_line_select(),
        KeyCode::Char('v') if can => body.line_select(),
        KeyCode::Char('x') if can => {
            return Some(Flow::ApplyDiff { discard: true });
        },
        KeyCode::Esc if lines => body.cancel_line_select(),
        KeyCode::Esc => {
            git.body = None;
            view.focus = if opened_from_history(&body.kind) {
                Focus::History
            } else {
                Focus::Refs
            };
            return Some(Flow::Continue);
        },
        _ => {
            return None;
        },
    }
    git.body = Some(body);
    Some(Flow::Continue)
}

/// Moves a cursor by a whole list's length, towards its top or its bottom.
fn step_over(sel: usize, len: usize, down: bool) -> (r: usize)
    requires
        len > 0,
    ensures
        r == stepped(
            sel as int,
            if down {
                len as int
            } else {
                -len
            },
            len as int,
        ),
{
    if down {
        len - 1
    } else if sel < len {
        0
    } else if sel - len < len {
        sel - len
    } else {
        len - 1
    }
}

fn clone_diff_view(d: &DiffView) -> (r: DiffView)
    ensures
        r@ == d@,
{
    let mut steps: Vec<DiffStep> = Vec::new();
    let mut i: usize = 0;
    while i < d.steps.len()
        invariant
            i <= d.steps@.len(),
            steps@ == d.steps@.take(i as int),
        decreases d.steps@.len() - i,
    {
        steps.push(d.steps[i]);
        i = i + 1;
        assert(steps@ =~= d.steps@.take(i as int));
    }
    assert(d.steps@.take(i as int) =~= d.steps@);
    DiffViewOf {
        kind: match &d.kind {
            Some(kind) => Some(clone_diff_kind(kind)),
            None => None,
        },
        mode: d.mode,
        notice: clone_opt(&d.notice),
        steps,
    }
}

/// Does what a key does on the git page. `rows` is how many rows of a list are
/// on screen.
#[verifier::rlimit(40)]
pub fn handle_git_key(
    k: KeyEvent,
    view: &mut Bench,
    git: &mut Git,
    refs: &Vec<RefRow>,
    rows: u16,
    footers: &GitFooters,
) -> (r: Option<Flow>)
    ensures
        (final(view)@, final(git)@, opt_flow(r)) == git_key(
            k,
            old(view)@,
            old(git)@,
            refs_model(refs@),
            rows,
            *footers,
        ),
{
    if k.code == KeyCode::Tab {
        view.focus = match view.focus {
            Focus::Refs => Focus::History,
            Focus::History if git.body.is_some() => Focus::Stage,
            _ => Focus::Refs,
        };
        return Some(Flow::Continue);
    }
    if view.focus == Focus::Stage {
        let open: Option<DiffView> = match &git.body {
            Some(d) => Some(clone_diff_view(d)),
            None => None,
        };
        match open {
            Some(d) => {
                return handle_body_key(k, view, git, d, rows);
            },
            None => {
                view.focus = Focus::History;
            },
        }
    }
    let on_refs = view.focus == Focus::Refs;
    let len: usize = if on_refs {
        refs.len()
    } else {
        git.log.len()
    };
    let sel: usize = if on_refs {
        git.refs_sel
    } else {
        git.hist_sel
    };
    let page: isize = if rows > 0 {
        rows as isize
    } else {
        1
    };
    let to: Option<usize> = match k.code {
        KeyCode::Char('j') | KeyCode::Down => Some(step(sel, 1, len)),
        KeyCode::Char('k') | KeyCode::Up => Some(step(sel, -1, len)),
        KeyCode::PageDown => Some(step(sel, page, len)),
        KeyCode::PageUp => Some(step(sel, -page, len)),
        KeyCode::Home if len > 0 => Some(step_over(sel, len, false)),
        KeyCode::End if len > 0 => Some(step_over(sel, len, true)),
        _ => None,
    };
    if let Some(to) = to {
        if on_refs {
            git.refs_sel = to;
        } else {
            git.hist_sel = to;
        }
        return Some(Flow::Continue);
    }
    if k.code == KeyCode::Esc {
        return match &git.scope {
            GitScope::Everything => None,
            _ => Some(Flow::GitScope(GitScope::Everything)),
        };
    }
    let verbs = if on_refs {
        &footers.refs
    } else if git.log.len() == 0 {
        &footers.none
    } else {
        &footers.commit
    };
    let named: Option<VerbId> = match k.code {
        KeyCode::Enter => find_verb(verbs, '\n'),
        KeyCode::Char(c) => find_verb(verbs, c),
        _ => None,
    };
    match named {
        Some(id) => git_verb_flow(id, view, git, refs),
        None => None,
    }
}

/// The keyboard is never left on a diff that is not there: where none is open,
/// no key of the git page ends with the keyboard on it, but for one that
/// leaves the page.
pub proof fn the_keyboard_is_never_on_a_diff_that_is_not_there(
    k: KeyEvent,
    v: BenchModel,
    g: GitModel,
    refs: Seq<RefRowModel>,
    rows: u16,
    footers: GitFooters,
)
    requires
        g.body is None,
    ensures
        git_key(k, v, g, refs, rows, footers).0.focus !is Stage,
        git_key(k, v, g, refs, rows, footers).1.body is None,
{
}

/// A commit is history: with one open beside the lists, no key of its diff
/// stages anything or throws anything away, or starts to pick lines.
pub proof fn history_is_not_staged(
    k: KeyEvent,
    v: BenchModel,
    g: GitModel,
    d: DiffViewModel,
    rows: u16,
)
    requires
        g.body == Some(d),
        !is_mutable(d),
        d.mode is Read,
    ensures
        !(body_key(k, v, g, d, rows).2 matches Some(FlowOf::ApplyDiff { discard })),
        body_key(k, v, g, d, rows).1.body matches Some(b) ==> b.mode is Read,
{
}

/// What lies under the pointer on the git page.
#[derive(Clone, Copy, Debug, PartialEq, Eq, Structural)]
pub enum GitTarget {
    RefRow(usize),
    HistRow(usize),
    RefVerb(char),
    HistVerb(char),
    Body,
    Nothing,
}

/// What a click on the git page does. A first click on a row moves the cursor
/// there; one on the row that the cursor is on does what enter does there. A
/// verb of a footer acts on the cursor of its own list.
pub open spec fn git_clicked(
    target: GitTarget,
    v: BenchModel,
    g: GitModel,
    refs: Seq<RefRowModel>,
    row_verbs: Seq<Verb>,
    footers: GitFooters,
) -> (BenchModel, GitModel, Option<FlowModel>) {
    match target {
        GitTarget::RefRow(row) => {
            let v2 = BenchOf { focus: Focus::Refs, ..v };
            let g2 = GitOf { refs_sel: row, ..g };
            if v.focus is Refs && g.refs_sel == row {
                match verb_named(row_verbs, '\n') {
                    Some(id) => (git_verb(id, v2, g2, refs).0, g2, git_verb(id, v2, g2, refs).1),
                    None => (v2, g2, None),
                }
            } else {
                (v2, g2, Some(FlowOf::Continue))
            }
        },
        GitTarget::HistRow(row) => (
            BenchOf { focus: Focus::History, ..v },
            GitOf { hist_sel: row, ..g },
            Some(
                if v.focus is History && g.hist_sel == row {
                    FlowOf::GitOpenCommit
                } else {
                    FlowOf::Continue
                },
            ),
        ),
        GitTarget::RefVerb(key) => {
            let v2 = BenchOf { focus: Focus::Refs, ..v };
            match verb_named(footers.refs@, key) {
                Some(id) => (git_verb(id, v2, g, refs).0, g, git_verb(id, v2, g, refs).1),
                None => (v2, g, None),
            }
        },
        GitTarget::HistVerb(key) => {
            let v2 = BenchOf { focus: Focus::History, ..v };
            match verb_named(history_verbs(g, footers), key) {
                Some(id) => (git_verb(id, v2, g, refs).0, g, git_verb(id, v2, g, refs).1),
                None => (v2, g, None),
            }
        },
        GitTarget::Body => (BenchOf { focus: Focus::Stage, ..v }, g, Some(FlowOf::Continue)),
        GitTarget::Nothing => (v, g, None),
    }
}

/// Does what a click on the git page does. `row_verbs` are the verbs of the
/// row of the refs under the pointer.
pub fn git_click(
    target: GitTarget,
    view: &mut Bench,
    git: &mut Git,
    refs: &Vec<RefRow>,
    row_verbs: &Vec<Verb>,
    footers: &GitFooters,
) -> (r: Option<Flow>)
    ensures
        (final(view)@, final(git)@, opt_flow(r)) == git_clicked(
            target,
            old(view)@,
            old(git)@,
            refs_model(refs@),
            row_verbs@,
            *footers,
        ),
{
    match target {
        GitTarget::RefRow(row) => {
            let again = view.focus == Focus::Refs && git.refs_sel == row;
            view.focus = Focus::Refs;
            git.refs_sel = row;
            if !again {
                return Some(Flow::Continue);
            }
            match find_verb(row_verbs, '\n') {
                Some(id) => git_verb_flow(id, view, git, refs),
                None => None,
            }
        },
        GitTarget::HistRow(row) => {
            let again = view.focus == Focus::History && git.hist_sel == row;
            view.focus = Focus::History;
            git.hist_sel = row;
            if again {
                Some(Flow::GitOpenCommit)
            } else {
                Some(Flow::Continue)
            }
        },
        GitTarget::RefVerb(key) => {
            view.focus = Focus::Refs;
            match find_verb(&footers.refs, key) {
                Some(id) => git_verb_flow(id, view, git, refs),
                None => None,
            }
        },
        GitTarget::HistVerb(key) => {
            view.focus = Focus::History;
            let verbs = if git.log.len() == 0 {
                &footers.none
            } else {
                &footers.commit
            };
            match find_verb(verbs, key) {
                Some(id) => git_verb_flow(id, view, git, refs),
                None => None,
            }
        },
        GitTarget::Body => {
            view.focus = Focus::Stage;
            Some(Flow::Continue)
        },
        GitTarget::Nothing => None,
    }
}

/// A verb that is clicked in a footer of the git page does what its key does in
/// the list above it: nothing that the key does not.
pub proof fn a_clicked_verb_is_its_key(
    k: KeyEvent,
    key: char,
    v: BenchModel,
    g: GitModel,
    refs: Seq<RefRowModel>,
    row_verbs: Seq<Verb>,
    rows: u16,
    footers: GitFooters,
)
    requires
        k.code == KeyCode::Char(key) && key != 'j' && key != 'k' || k.code is Enter && key == '\n',
    ensures
        git_clicked(GitTarget::RefVerb(key), v, g, refs, row_verbs, footers) == git_key(
            k,
            BenchOf { focus: Focus::Refs, ..v },
            g,
            refs,
            rows,
            footers,
        ),
        git_clicked(GitTarget::HistVerb(key), v, g, refs, row_verbs, footers) == git_key(
            k,
            BenchOf { focus: Focus::History, ..v },
            g,
            refs,
            rows,
            footers,
        ),
{
}

/// Closing a stash that was shown from the refs leaves the keyboard there.
pub proof fn a_stash_is_left_for_the_refs(
    k: KeyEvent,
    v: BenchModel,
    g: GitModel,
    refs: Seq<RefRowModel>,
    index: usize,
    message: Seq<char>,
    rows: u16,
)
    requires
        k.code is Esc,
        v.focus is Refs,
        ref_at(refs, g) == Some(RefRowOf::Stash { index, message }),
    ensures
        git_verb(VerbId::Show, v, g, refs).1 matches Some(FlowOf::GitShowRev { rev, title })
            && forall|later: BenchModel, git: GitModel| #[trigger]
            body_key(
                k,
                later,
                git,
                fresh_diff(DiffKindOf::Commit { id: rev, summary: title }),
                rows,
            ).0.focus is Refs,
{
    let mark = "stash@{"@;
    let rev = mark + decimal(index as nat) + "}"@;
    assert(rev.take(mark.len() as int) =~= mark);
}

/// On the diff page the arrows and their letters scroll the diff by a line
/// while it is read, and move the cursor by a line while lines are picked: down
/// for down and up for up. The view and the diff stay otherwise.
pub proof fn a_diff_is_walked_a_line_at_a_time(k: KeyEvent, v: BenchModel, d: DiffViewModel)
    ensures
        ({
            let r = diff_key(k, v, d);
            let does = |s: DiffStep|
                r == (
                    v,
                    DiffViewOf { steps: d.steps.push(s), ..d },
                    Some(FlowOf::<Seq<char>>::Continue),
                );
            let on = k.code is Down || k.code == KeyCode::Char('j');
            let back = k.code is Up || k.code == KeyCode::Char('k');
            &&& on && d.mode is Read ==> does(DiffStep::Scroll(1))
            &&& on && d.mode is Lines ==> does(DiffStep::Line(1))
            &&& back && d.mode is Read ==> does(DiffStep::Scroll((-1) as isize))
            &&& back && d.mode is Lines ==> does(DiffStep::Line((-1) as isize))
            &&& k.code is PageDown ==> does(DiffStep::Pages(1))
            &&& k.code is PageUp ==> does(DiffStep::Pages((-1) as isize))
            &&& k.code is Home || k.code == KeyCode::Char('g') ==> does(DiffStep::Top)
            &&& k.code is End || k.code == KeyCode::Char('G') ==> does(DiffStep::End)
            &&& k.code == KeyCode::Char(']') ==> does(DiffStep::Hunk(1))
            &&& k.code == KeyCode::Char('[') ==> does(DiffStep::Hunk((-1) as isize))
            &&& k.code == KeyCode::Char(' ') && d.mode is Lines ==> does(DiffStep::PickLine)
        }),
{
}

/// On the diff page space stages what the cursor is on while the diff is read,
/// enter stages the lines that were picked, and `x` throws away. `r` reads the
/// same diff again with the cursor kept, `v` begins to pick lines and ends it,
/// and `q` leaves for the agents.
pub proof fn a_diff_is_applied_or_thrown_away(k: KeyEvent, v: BenchModel, d: DiffViewModel)
    ensures
        ({
            let r = diff_key(k, v, d);
            &&& k.code == KeyCode::Char(' ') && d.mode is Read ==> r == (
                v,
                d,
                Some(FlowOf::<Seq<char>>::ApplyDiff { discard: false }),
            )
            &&& k.code is Enter && d.mode is Lines ==> r == (
                v,
                d,
                Some(FlowOf::<Seq<char>>::ApplyDiff { discard: false }),
            )
            &&& k.code == KeyCode::Char('x') ==> r == (
                v,
                d,
                Some(FlowOf::<Seq<char>>::ApplyDiff { discard: true }),
            )
            &&& k.code == KeyCode::Char('r') ==> r.0 == v && r.1 == d && (match d.kind {
                Some(kind) => r.2 == Some(FlowOf::OpenDiff { kind, keep_cursor: true }),
                None => r.2 is None,
            })
            &&& k.code == KeyCode::Char('v') ==> r.0 == v && r.1.mode != d.mode && r.1 == (
            DiffViewOf { mode: r.1.mode, ..d }) && r.2 == Some(FlowOf::<Seq<char>>::Continue)
            &&& k.code == KeyCode::Char('q') ==> r == (
                BenchOf { page: Page::Agents, ..v },
                d,
                Some(FlowOf::<Seq<char>>::Continue),
            )
        }),
{
}

/// A diff opens to be read, of what it is of.
pub proof fn a_diff_opens_to_be_read(kind: DiffKindModel)
    ensures
        fresh_diff(kind).kind == Some(kind),
        fresh_diff(kind).mode is Read,
        fresh_diff(kind).notice is None,
        fresh_diff(kind).steps.len() == 0,
{
}

/// A key names the first verb that is advertised under it, and none where none
/// is.
pub proof fn the_first_verb_under_a_key_is_named(verbs: Seq<Verb>, key: char, i: int)
    ensures
        0 <= i < verbs.len() && verbs[i].key == key && (forall|j: int|
            0 <= j < i ==> (#[trigger] verbs[j]).key != key) ==> verb_named(verbs, key) == Some(
            verbs[i].id,
        ),
        (forall|j: int| 0 <= j < verbs.len() ==> (#[trigger] verbs[j]).key != key) ==> verb_named(
            verbs,
            key,
        ) is None,
    decreases verbs.len(),
{
    if verbs.len() > 0 {
        let rest = verbs.skip(1);
        if 0 < i < verbs.len() && verbs[i].key == key && (forall|j: int|
            0 <= j < i ==> (#[trigger] verbs[j]).key != key) {
            assert(verbs[0].key != key);
            assert(rest[i - 1] == verbs[i]);
            assert forall|j: int| 0 <= j < i - 1 implies (#[trigger] rest[j]).key != key by {
                assert(rest[j] == verbs[j + 1]);
            }
            the_first_verb_under_a_key_is_named(rest, key, i - 1);
        }
        if forall|j: int| 0 <= j < verbs.len() ==> (#[trigger] verbs[j]).key != key {
            assert(verbs[0].key != key);
            assert forall|j: int| 0 <= j < rest.len() implies (#[trigger] rest[j]).key != key by {
                assert(rest[j] == verbs[j + 1]);
            }
            the_first_verb_under_a_key_is_named(rest, key, 0);
        }
    }
}

/// On a change of the working tree: one that is not staged is staged, or is
/// thrown away once that has been asked about; one that is staged is unstaged;
/// and a conflict is resolved to the side that was asked for.
pub proof fn a_verb_on_a_change_does_what_it_says(
    v: BenchModel,
    g: GitModel,
    rows: Seq<RefRowModel>,
    path: Seq<char>,
)
    requires
        g.refs_sel < rows.len(),
    ensures
        ({
            let row = rows[g.refs_sel as int];
            let does = |id: VerbId, action: GitActionOf<Seq<char>>|
                git_verb(id, v, g, rows) == (v, Some(FlowOf::Git(action)));
            &&& row == RefRowOf::Change(ChangeRowOf::File { path, staged: false }) ==> {
                &&& does(VerbId::Stage, GitActionOf::Stage(path))
                &&& git_verb(VerbId::Unstage, v, g, rows) == (v, None::<FlowModel>)
                &&& git_verb(VerbId::Diff, v, g, rows) == (
                    v,
                    Some(
                        FlowOf::GitOpenDiff {
                            kind: DiffKindOf::Unstaged { path: Some(path) },
                            keep_cursor: false,
                        },
                    ),
                )
                &&& git_verb(VerbId::Discard, v, g, rows).1 == Some(FlowOf::<Seq<char>>::Continue)
                &&& git_verb(VerbId::Discard, v, g, rows).0.overlay == Some(discard_question(path))
            }
            &&& row == RefRowOf::Change(ChangeRowOf::File { path, staged: true }) ==> {
                &&& does(VerbId::Unstage, GitActionOf::Unstage(path))
                &&& git_verb(VerbId::Stage, v, g, rows) == (v, None::<FlowModel>)
                &&& git_verb(VerbId::Discard, v, g, rows) == (v, None::<FlowModel>)
                &&& git_verb(VerbId::Diff, v, g, rows) == (
                    v,
                    Some(
                        FlowOf::GitOpenDiff {
                            kind: DiffKindOf::Staged { path: Some(path) },
                            keep_cursor: false,
                        },
                    ),
                )
            }
            &&& row == RefRowOf::Change(ChangeRowOf::Conflicted { path }) ==> {
                &&& does(
                    VerbId::ResolveOurs,
                    GitActionOf::Resolve { path, take: ResolveSide::Ours },
                )
                &&& does(
                    VerbId::ResolveTheirs,
                    GitActionOf::Resolve { path, take: ResolveSide::Theirs },
                )
                &&& does(
                    VerbId::ResolveDone,
                    GitActionOf::Resolve { path, take: ResolveSide::Resolved },
                )
                &&& git_verb(VerbId::Stage, v, g, rows) == (v, None::<FlowModel>)
                &&& git_verb(VerbId::Diff, v, g, rows) == (
                    v,
                    Some(
                        FlowOf::GitOpenDiff {
                            kind: DiffKindOf::Unstaged { path: Some(path) },
                            keep_cursor: false,
                        },
                    ),
                )
            }
            &&& row == RefRowOf::<Seq<char>>::WorkingTree ==> git_verb(VerbId::Diff, v, g, rows)
                == (
                v,
                Some(
                    FlowOf::<Seq<char>>::GitOpenDiff {
                        kind: DiffKindOf::Unstaged { path: None },
                        keep_cursor: false,
                    },
                ),
            )
        }),
{
}

/// On a branch, a tag, a remote, a stash or a checkout a verb acts on that one,
/// by its own name, number or path, and what destroys it is asked about first.
pub proof fn a_verb_on_a_ref_names_that_ref(
    v: BenchModel,
    g: GitModel,
    rows: Seq<RefRowModel>,
    name: Seq<char>,
    index: usize,
    workspace: SessionId,
)
    requires
        g.refs_sel < rows.len(),
    ensures
        ({
            let row = rows[g.refs_sel as int];
            let does = |id: VerbId, f: FlowModel| git_verb(id, v, g, rows) == (v, Some(f));
            &&& row == (RefRowOf::Branch { name }) ==> {
                &&& does(
                    VerbId::Checkout,
                    FlowOf::Pick { target: PickTarget::Checkout, value: name },
                )
                &&& does(VerbId::Merge, FlowOf::Pick { target: PickTarget::Merge, value: name })
                &&& does(
                    VerbId::DeleteBranch,
                    FlowOf::ConfirmPick { target: PickTarget::DeleteBranch, value: name },
                )
                &&& does(VerbId::Scope, FlowOf::GitScope(GitScopeOf::Ref(name)))
            }
            &&& row == RefRowOf::Tag(name) ==> {
                &&& does(
                    VerbId::TagDelete,
                    FlowOf::ConfirmPick { target: PickTarget::TagDelete, value: name },
                )
                &&& does(VerbId::Scope, FlowOf::GitScope(GitScopeOf::Ref(name)))
            }
            &&& row == (RefRowOf::Remote { name }) ==> does(VerbId::Fetch, FlowOf::GitFetch(name))
            &&& row == (RefRowOf::Stash { index, message: name }) ==> {
                &&& does(
                    VerbId::StashPop,
                    FlowOf::Pick { target: PickTarget::StashPop, value: decimal(index as nat) },
                )
                &&& does(
                    VerbId::StashDrop,
                    FlowOf::ConfirmPick {
                        target: PickTarget::StashDrop,
                        value: decimal(index as nat),
                    },
                )
                &&& v.focus is Refs ==> does(
                    VerbId::Show,
                    FlowOf::GitShowRev {
                        rev: "stash@{"@ + decimal(index as nat) + "}"@,
                        title: name,
                    },
                )
            }
            &&& row == (RefRowOf::Worktree { path: name, workspace: None, here: false }) ==> {
                &&& does(
                    VerbId::OpenWorktree,
                    FlowOf::Pick { target: PickTarget::OpenWorktree, value: name },
                )
                &&& does(
                    VerbId::RemoveWorktree,
                    FlowOf::ConfirmPick { target: PickTarget::RemoveWorktree, value: name },
                )
            }
            &&& row == (RefRowOf::Worktree { path: name, workspace: Some(workspace), here: false })
                ==> does(VerbId::OpenWorktree, FlowOf::GoWorktree { workspace, path: name })
        }),
{
}

/// On the commit under the cursor of the history a verb acts on that commit;
/// the verbs of the page itself need no row.
pub proof fn a_verb_on_a_commit_names_that_commit(
    v: BenchModel,
    g: GitModel,
    rows: Seq<RefRowModel>,
)
    ensures
        g.hist_sel < g.log.len() ==> {
            let id = g.log[g.hist_sel as int].id;
            &&& git_verb(VerbId::Revert, v, g, rows) == (
                v,
                Some(FlowOf::Pick { target: PickTarget::Revert, value: id }),
            )
            &&& git_verb(VerbId::CherryPick, v, g, rows) == (
                v,
                Some(FlowOf::Pick { target: PickTarget::CherryPick, value: id }),
            )
        },
        g.hist_sel >= g.log.len() ==> git_verb(VerbId::Revert, v, g, rows).1 is None && git_verb(
            VerbId::CherryPick,
            v,
            g,
            rows,
        ).1 is None,
        git_verb(VerbId::CopySha, v, g, rows) == (v, Some(FlowOf::<Seq<char>>::GitCopySha)),
        git_verb(VerbId::Refresh, v, g, rows) == (v, Some(FlowOf::<Seq<char>>::GitRefresh)),
        git_verb(VerbId::GitMenu, v, g, rows) == (v, Some(FlowOf::<Seq<char>>::GitMenu)),
        git_verb(VerbId::GoToChanges, v, g, rows) == (
            BenchOf { page: Page::Agents, focus: Focus::Changes, ..v },
            Some(FlowOf::<Seq<char>>::Continue),
        ),
        v.focus !is Refs ==> git_verb(VerbId::Show, v, g, rows) == (
            v,
            Some(FlowOf::<Seq<char>>::GitOpenCommit),
        ),
        v.page !is Help ==> git_verb(VerbId::Help, v, g, rows) == (
            BenchOf { overlay: None, ..v },
            Some(FlowOf::<Seq<char>>::OpenHelp),
        ),
{
}

/// With the keyboard on the refs or on the history, the arrows and their
/// letters move that list's cursor by a row, the page keys by a screen, and
/// home and end to its ends. The other list's cursor stays.
pub proof fn the_lists_of_the_git_page_are_walked(
    k: KeyEvent,
    v: BenchModel,
    g: GitModel,
    refs: Seq<RefRowModel>,
    rows: u16,
    footers: GitFooters,
)
    requires
        rows > 0,
        v.focus is Refs || v.focus is History,
        v.focus is Refs ==> g.refs_sel < refs.len() <= usize::MAX,
        v.focus is History ==> g.hist_sel < g.log.len() <= usize::MAX,
    ensures
        ({
            let r = git_key(k, v, g, refs, rows, footers);
            let at = if v.focus is Refs {
                g.refs_sel as int
            } else {
                g.hist_sel as int
            };
            let len = if v.focus is Refs {
                refs.len() as int
            } else {
                g.log.len() as int
            };
            let lands = |to: int|
                r.0 == v && r.2 == Some(FlowOf::<Seq<char>>::Continue) && r.1 == (if v.focus
                    is Refs {
                    GitOf { refs_sel: to as usize, ..g }
                } else {
                    GitOf { hist_sel: to as usize, ..g }
                });
            let down = |n: int|
                lands(
                    if at + n < len {
                        at + n
                    } else {
                        len - 1
                    },
                );
            let up = |n: int|
                lands(
                    if at >= n {
                        at - n
                    } else {
                        0
                    },
                );
            &&& k.code is Down || k.code == KeyCode::Char('j') ==> down(1)
            &&& k.code is Up || k.code == KeyCode::Char('k') ==> up(1)
            &&& k.code is PageDown ==> down(rows as int)
            &&& k.code is PageUp ==> up(rows as int)
            &&& k.code is Home ==> lands(0)
            &&& k.code is End ==> lands(len - 1)
        }),
{
}

/// The tab key walks from the refs to the history, from there to the diff
/// where one is open, and back to the refs. Escape shows everything again
/// where the history is of one ref.
pub proof fn the_git_page_is_walked_by_tab(
    k: KeyEvent,
    v: BenchModel,
    g: GitModel,
    refs: Seq<RefRowModel>,
    rows: u16,
    footers: GitFooters,
)
    ensures
        ({
            let r = git_key(k, v, g, refs, rows, footers);
            &&& k.code is Tab ==> r.0 == (BenchOf { focus: r.0.focus, ..v }) && r.1 == g && r.2
                == Some(FlowOf::<Seq<char>>::Continue)
            &&& k.code is Tab && v.focus is Refs ==> r.0.focus is History
            &&& k.code is Tab && v.focus is History && g.body is Some ==> r.0.focus is Stage
            &&& k.code is Tab && v.focus is History && g.body is None ==> r.0.focus is Refs
            &&& k.code is Tab && v.focus is Stage ==> r.0.focus is Refs
            &&& k.code is Esc && g.scope is Ref && (v.focus is Refs || v.focus is History) ==> r
                == (v, g, Some(FlowOf::<Seq<char>>::GitScope(GitScopeOf::Everything)))
        }),
{
}

/// A letter in one of the lists does what the first verb under it in that
/// list's footer says.
pub proof fn a_letter_on_the_git_page_is_a_verb_of_its_list(
    k: KeyEvent,
    v: BenchModel,
    g: GitModel,
    refs: Seq<RefRowModel>,
    rows: u16,
    footers: GitFooters,
    c: char,
)
    requires
        k.code == KeyCode::Char(c) && c != 'j' && c != 'k' || k.code is Enter && c == '\n',
        v.focus is Refs || v.focus is History,
    ensures
        ({
            let r = git_key(k, v, g, refs, rows, footers);
            let verbs = if v.focus is Refs {
                footers.refs@
            } else if g.log.len() > 0 {
                footers.commit@
            } else {
                footers.none@
            };
            match verb_named(verbs, c) {
                Some(id) => r.0 == git_verb(id, v, g, refs).0 && r.1 == g && r.2 == git_verb(
                    id,
                    v,
                    g,
                    refs,
                ).1,
                None => r == (v, g, None::<FlowModel>),
            }
        }),
{
}

/// With the keyboard on the diff beside the lists it is walked like any diff,
/// by lines, by screens and by hunks, and folded.
pub proof fn the_diff_beside_the_lists_is_walked(
    k: KeyEvent,
    v: BenchModel,
    g: GitModel,
    refs: Seq<RefRowModel>,
    d: DiffViewModel,
    rows: u16,
    footers: GitFooters,
)
    requires
        v.focus is Stage,
        g.body == Some(d),
        rows > 0,
    ensures
        ({
            let r = git_key(k, v, g, refs, rows, footers);
            let does = |s: DiffStep|
                r == (
                    v,
                    GitOf { body: Some(DiffViewOf { steps: d.steps.push(s), ..d }), ..g },
                    Some(FlowOf::<Seq<char>>::Continue),
                );
            let on = k.code is Down || k.code == KeyCode::Char('j');
            let back = k.code is Up || k.code == KeyCode::Char('k');
            &&& on && d.mode is Read ==> does(DiffStep::Scroll(1))
            &&& on && d.mode is Lines ==> does(DiffStep::Line(1))
            &&& back && d.mode is Read ==> does(DiffStep::Scroll((-1) as isize))
            &&& back && d.mode is Lines ==> does(DiffStep::Line((-1) as isize))
            &&& k.code is PageDown ==> does(DiffStep::Scroll(rows as isize))
            &&& k.code is PageUp ==> does(DiffStep::Scroll((-(rows as int)) as isize))
            &&& k.code == KeyCode::Char(']') ==> does(DiffStep::Hunk(1))
            &&& k.code == KeyCode::Char('[') ==> does(DiffStep::Hunk((-1) as isize))
            &&& k.code == KeyCode::Char('z') ==> does(DiffStep::Fold)
            &&& k.code == KeyCode::Char('Z') ==> does(DiffStep::FoldAll)
        }),
{
}

/// The diff beside the lists, of something that can be staged: space and enter
/// stage, `x` throws away, `v` begins to pick lines and ends it. Escape ends
/// picking first, and then closes the diff and takes the keyboard back to the
/// list it was opened from.
pub proof fn the_diff_beside_the_lists_is_applied_or_closed(
    k: KeyEvent,
    v: BenchModel,
    g: GitModel,
    refs: Seq<RefRowModel>,
    d: DiffViewModel,
    rows: u16,
    footers: GitFooters,
    path: Option<Seq<char>>,
)
    requires
        v.focus is Stage,
        g.body == Some(d),
        d.kind == Some(DiffKindOf::Unstaged { path }) || d.kind == Some(DiffKindOf::Staged { path }),
    ensures
        ({
            let r = git_key(k, v, g, refs, rows, footers);
            let apply = |discard: bool|
                r == (v, g, Some(FlowOf::<Seq<char>>::ApplyDiff { discard }));
            &&& k.code == KeyCode::Char(' ') && d.mode is Read ==> apply(false)
            &&& k.code is Enter && d.mode is Lines ==> apply(false)
            &&& k.code is Enter && d.mode is Read ==> r.2 is None
            &&& k.code == KeyCode::Char('x') ==> apply(true)
            &&& k.code == KeyCode::Char(' ') && d.mode is Lines ==> r.1.body == Some(
                DiffViewOf { steps: d.steps.push(DiffStep::PickLine), ..d },
            )
            &&& k.code == KeyCode::Char('v') ==> r.0 == v && (r.1.body matches Some(b) && b.mode
                != d.mode)
            &&& k.code is Esc && d.mode is Lines ==> r.0 == v && r.1.body == Some(
                DiffViewOf { mode: DiffMode::Read, ..d },
            )
            &&& k.code is Esc && d.mode is Read ==> r.0 == (BenchOf { focus: Focus::Refs, ..v })
                && r.1 == (GitOf { body: None, ..g })
        }),
{
}

/// Closing the diff of a commit takes the keyboard back to the history.
pub proof fn a_commit_is_left_for_the_history(
    k: KeyEvent,
    v: BenchModel,
    g: GitModel,
    d: DiffViewModel,
    rows: u16,
    id: Seq<char>,
    summary: Seq<char>,
)
    requires
        k.code is Esc,
        d.mode is Read,
        d.kind == Some(DiffKindOf::Commit { id, summary }),
        behind(id, "stash@{"@) is None,
    ensures
        body_key(k, v, g, d, rows).0 == (BenchOf { focus: Focus::History, ..v }),
        body_key(k, v, g, d, rows).1 == (GitOf { body: None, ..g }),
{
}

/// A click on a row of the git page marks it and takes the keyboard to its
/// list; on the commit that is marked it opens the commit, and on the diff it
/// takes the keyboard there.
pub proof fn a_click_on_the_git_page_marks_its_row(
    row: usize,
    v: BenchModel,
    g: GitModel,
    refs: Seq<RefRowModel>,
    row_verbs: Seq<Verb>,
    footers: GitFooters,
)
    ensures
        ({
            let on = |t: GitTarget| git_clicked(t, v, g, refs, row_verbs, footers);
            &&& v.focus !is Refs || g.refs_sel != row ==> on(GitTarget::RefRow(row)) == (
                BenchOf { focus: Focus::Refs, ..v },
                GitOf { refs_sel: row, ..g },
                Some(FlowOf::<Seq<char>>::Continue),
            )
            &&& v.focus is Refs && g.refs_sel == row ==> (match verb_named(row_verbs, '\n') {
                Some(id) => on(GitTarget::RefRow(row)) == (
                    git_verb(id, v, g, refs).0,
                    g,
                    git_verb(id, v, g, refs).1,
                ),
                None => on(GitTarget::RefRow(row)) == (v, g, None::<FlowModel>),
            })
            &&& v.focus !is History || g.hist_sel != row ==> on(GitTarget::HistRow(row)) == (
                BenchOf { focus: Focus::History, ..v },
                GitOf { hist_sel: row, ..g },
                Some(FlowOf::<Seq<char>>::Continue),
            )
            &&& v.focus is History && g.hist_sel == row ==> on(GitTarget::HistRow(row)) == (
                v,
                g,
                Some(FlowOf::<Seq<char>>::GitOpenCommit),
            )
            &&& on(GitTarget::Body) == (
                BenchOf { focus: Focus::Stage, ..v },
                g,
                Some(FlowOf::<Seq<char>>::Continue),
            )
            &&& on(GitTarget::Nothing) == (v, g, None::<FlowModel>)
        }),
{
}

} // verus!
