//! A workspace as a machine describes it, and what the keys do with its
//! changes.
use vstd::prelude::*;

use crate::overlay::{ask, blank_prompt, prompt, question};
use crate::text::{cat, decimal, to_decimal};
use crate::types::{
    opt_flow, Bench, BenchModel, BenchOf, ConfirmKind, ConfirmKindOf, DiffKind, DiffKindModel,
    DiffKindOf, Flow, FlowModel, FlowOf, GitAction, GitActionOf, KeyCode, KeyEvent, PaneId,
    PromptKind, PromptKindOf, ResolveSide, SessionId,
};

verus! {

/// A commit, by its id and the first line of its message.
#[verifier::ext_equal]
#[derive(Clone, Debug, PartialEq, Eq)]
pub struct CommitOf<S> {
    pub id: S,
    pub summary: S,
}

pub type Commit = CommitOf<String>;

pub type CommitModel = CommitOf<Seq<char>>;

impl View for CommitOf<String> {
    type V = CommitOf<Seq<char>>;

    open spec fn view(&self) -> CommitOf<Seq<char>> {
        CommitOf { id: self.id@, summary: self.summary@ }
    }
}

/// What has changed in a workspace: the paths on each side of the index, the
/// conflicts, the last commits, and how far ahead of its upstream the branch
/// is. `clean` says that no merge or rebase is under way.
#[derive(Clone, Debug, PartialEq, Eq)]
pub struct Changes {
    pub conflicted: Vec<String>,
    pub unstaged: Vec<String>,
    pub staged: Vec<String>,
    pub recent_commits: Vec<Commit>,
    pub ahead: usize,
    pub clean: bool,
}

/// A workspace: its name and place, the panes of its agents and processes, and
/// what has changed in it, where it is a repository.
#[derive(Clone, Debug, PartialEq, Eq)]
pub struct Workspace {
    pub id: SessionId,
    pub name: String,
    pub cwd: String,
    pub agents: Vec<PaneId>,
    pub processes: Vec<PaneId>,
    pub changes: Option<Changes>,
    /// The pane that the machine itself has on the stage.
    pub stage: Option<PaneId>,
}

/// A section of the changes.
#[derive(Clone, Copy, Debug, PartialEq, Eq, Structural)]
pub enum Section {
    Conflicted,
    Unstaged,
    Staged,
    Commits,
}

/// A row of the changes: a heading, a file on one side of the index, a file in
/// conflict, or a commit.
#[verifier::ext_equal]
#[derive(Clone, Debug, PartialEq, Eq)]
pub enum ChangeRowOf<S> {
    Header(Section),
    File { path: S, staged: bool },
    Conflicted { path: S },
    Commit { id: S, summary: S },
}

pub type ChangeRow = ChangeRowOf<String>;

pub type ChangeRowModel = ChangeRowOf<Seq<char>>;

impl View for ChangeRowOf<String> {
    type V = ChangeRowOf<Seq<char>>;

    open spec fn view(&self) -> ChangeRowOf<Seq<char>> {
        match *self {
            ChangeRowOf::Header(s) => ChangeRowOf::Header(s),
            ChangeRowOf::File { path, staged } => ChangeRowOf::File { path: path@, staged },
            ChangeRowOf::Conflicted { path } => ChangeRowOf::Conflicted { path: path@ },
            ChangeRowOf::Commit { id, summary } => ChangeRowOf::Commit {
                id: id@,
                summary: summary@,
            },
        }
    }
}

/// What a list of rows holds.
pub open spec fn rows_model(v: Seq<ChangeRow>) -> Seq<ChangeRowModel> {
    Seq::new(v.len(), |i: int| v[i]@)
}

/// A section with its heading, or nothing where the section is empty.
pub open spec fn under_heading(section: Section, rows: Seq<ChangeRowModel>) -> Seq<ChangeRowModel> {
    if rows.len() == 0 {
        Seq::empty()
    } else {
        seq![ChangeRowOf::Header(section)] + rows
    }
}

/// The rows of the files in conflict.
pub open spec fn conflict_rows(c: Changes) -> Seq<ChangeRowModel> {
    Seq::new(c.conflicted@.len(), |i: int| ChangeRowOf::Conflicted { path: c.conflicted@[i]@ })
}

/// The rows of the files on one side of the index.
pub open spec fn file_rows(paths: Seq<String>, staged: bool) -> Seq<ChangeRowModel> {
    Seq::new(paths.len(), |i: int| ChangeRowOf::File { path: paths[i]@, staged })
}

/// The rows of the last commits.
pub open spec fn commit_rows(commits: Seq<Commit>) -> Seq<ChangeRowModel> {
    Seq::new(
        commits.len(),
        |i: int| ChangeRowOf::Commit { id: commits[i].id@, summary: commits[i].summary@ },
    )
}

/// The changes as they are listed: conflicts, what is not staged, what is, and
/// the last commits, each under its heading.
pub open spec fn listed_changes(c: Changes) -> Seq<ChangeRowModel> {
    under_heading(Section::Conflicted, conflict_rows(c)) + under_heading(
        Section::Unstaged,
        file_rows(c.unstaged@, false),
    ) + under_heading(Section::Staged, file_rows(c.staged@, true)) + under_heading(
        Section::Commits,
        commit_rows(c.recent_commits@),
    )
}

fn list_files(out: &mut Vec<ChangeRow>, section: Section, paths: &Vec<String>, staged: bool)
    ensures
        rows_model(final(out)@) == rows_model(old(out)@) + under_heading(
            section,
            file_rows(paths@, staged),
        ),
{
    let ghost before = rows_model(out@);
    if paths.len() == 0 {
        assert(rows_model(out@) =~= before + under_heading(section, file_rows(paths@, staged)));
        return;
    }
    out.push(ChangeRow::Header(section));
    assert(rows_model(out@) =~= before + (seq![ChangeRowOf::Header(section)] + file_rows(
        paths@,
        staged,
    ).take(0)));
    let mut i: usize = 0;
    while i < paths.len()
        invariant
            i <= paths@.len(),
            rows_model(out@) == before + (seq![ChangeRowOf::Header(section)] + file_rows(
                paths@,
                staged,
            ).take(i as int)),
        decreases paths@.len() - i,
    {
        let row = ChangeRow::File { path: paths[i].clone(), staged };
        let ghost sofar = out@;
        out.push(row);
        proof {
            assert(rows_model(out@) =~= rows_model(sofar).push(row@));
            assert(row@ == file_rows(paths@, staged)[i as int]);
            assert(rows_model(out@) =~= before + (seq![ChangeRowOf::Header(section)] + file_rows(
                paths@,
                staged,
            ).take(i as int + 1)));
        }
        i = i + 1;
    }
    assert(file_rows(paths@, staged).take(i as int) =~= file_rows(paths@, staged));
}

fn list_conflicts(out: &mut Vec<ChangeRow>, c: &Changes)
    ensures
        rows_model(final(out)@) == rows_model(old(out)@) + under_heading(
            Section::Conflicted,
            conflict_rows(*c),
        ),
{
    let ghost before = rows_model(out@);
    let paths = &c.conflicted;
    if paths.len() == 0 {
        assert(rows_model(out@) =~= before + under_heading(Section::Conflicted, conflict_rows(*c)));
        return;
    }
    out.push(ChangeRow::Header(Section::Conflicted));
    assert(rows_model(out@) =~= before + (seq![ChangeRowOf::Header(Section::Conflicted)]
        + conflict_rows(*c).take(0)));
    let mut i: usize = 0;
    while i < paths.len()
        invariant
            i <= paths@.len(),
            *paths == c.conflicted,
            rows_model(out@) == before + (seq![ChangeRowOf::Header(Section::Conflicted)]
                + conflict_rows(*c).take(i as int)),
        decreases paths@.len() - i,
    {
        let row = ChangeRow::Conflicted { path: paths[i].clone() };
        let ghost sofar = out@;
        out.push(row);
        proof {
            assert(rows_model(out@) =~= rows_model(sofar).push(row@));
            assert(row@ == conflict_rows(*c)[i as int]);
            assert(rows_model(out@) =~= before + (seq![ChangeRowOf::Header(Section::Conflicted)]
                + conflict_rows(*c).take(i as int + 1)));
        }
        i = i + 1;
    }
    assert(conflict_rows(*c).take(i as int) =~= conflict_rows(*c));
}

fn list_commits(out: &mut Vec<ChangeRow>, commits: &Vec<Commit>)
    ensures
        rows_model(final(out)@) == rows_model(old(out)@) + under_heading(
            Section::Commits,
            commit_rows(commits@),
        ),
{
    let ghost before = rows_model(out@);
    if commits.len() == 0 {
        assert(rows_model(out@) =~= before + under_heading(Section::Commits, commit_rows(commits@)));
        return;
    }
    out.push(ChangeRow::Header(Section::Commits));
    assert(rows_model(out@) =~= before + (seq![ChangeRowOf::Header(Section::Commits)] + commit_rows(
        commits@,
    ).take(0)));
    let mut i: usize = 0;
    while i < commits.len()
        invariant
            i <= commits@.len(),
            rows_model(out@) == before + (seq![ChangeRowOf::Header(Section::Commits)] + commit_rows(
                commits@,
            ).take(i as int)),
        decreases commits@.len() - i,
    {
        let row = ChangeRow::Commit {
            id: commits[i].id.clone(),
            summary: commits[i].summary.clone(),
        };
        let ghost sofar = out@;
        out.push(row);
        proof {
            assert(rows_model(out@) =~= rows_model(sofar).push(row@));
            assert(row@ == commit_rows(commits@)[i as int]);
            assert(rows_model(out@) =~= before + (seq![ChangeRowOf::Header(Section::Commits)]
                + commit_rows(commits@).take(i as int + 1)));
        }
        i = i + 1;
    }
    assert(commit_rows(commits@).take(i as int) =~= commit_rows(commits@));
}

/// Lists the changes as they are drawn and acted on.
pub fn change_rows(c: &Changes) -> (rows: Vec<ChangeRow>)
    ensures
        rows_model(rows@) == listed_changes(*c),
{
    let mut rows: Vec<ChangeRow> = Vec::new();
    assert(rows_model(rows@) =~= Seq::<ChangeRowModel>::empty());
    list_conflicts(&mut rows, c);
    list_files(&mut rows, Section::Unstaged, &c.unstaged, false);
    list_files(&mut rows, Section::Staged, &c.staged, true);
    list_commits(&mut rows, &c.recent_commits);
    assert(rows_model(rows@) =~= listed_changes(*c));
    rows
}

/// The row that a cursor of the changes is on, if there is a repository and it
/// has such a row.
pub open spec fn change_at(ws: Option<&Workspace>, sel: usize) -> Option<ChangeRowModel> {
    match ws {
        Some(w) => match w.changes {
            Some(c) => if sel < listed_changes(c).len() {
                Some(listed_changes(c)[sel as int])
            } else {
                None
            },
            None => None,
        },
        None => None,
    }
}

/// The diff that a row of the changes stands for. A heading stands for its
/// whole section, where the section is one that can be diffed.
pub open spec fn diff_of_row(row: ChangeRowModel) -> Option<DiffKindModel> {
    match row {
        ChangeRowOf::Header(Section::Unstaged) => Some(DiffKindOf::Unstaged { path: None }),
        ChangeRowOf::Header(Section::Staged) => Some(DiffKindOf::Staged { path: None }),
        ChangeRowOf::Header(_) => None,
        ChangeRowOf::File { path, staged } => if staged {
            Some(DiffKindOf::Staged { path: Some(path) })
        } else {
            Some(DiffKindOf::Unstaged { path: Some(path) })
        },
        ChangeRowOf::Conflicted { path } => Some(DiffKindOf::Unstaged { path: Some(path) }),
        ChangeRowOf::Commit { id, summary } => Some(DiffKindOf::Commit { id, summary }),
    }
}

/// The diff under a cursor of the changes.
pub open spec fn diff_at(ws: Option<&Workspace>, sel: usize) -> Option<DiffKindModel> {
    match change_at(ws, sel) {
        Some(row) => diff_of_row(row),
        None => None,
    }
}

/// What an optional diff is of.
pub open spec fn opt_kind(k: Option<DiffKind>) -> Option<DiffKindModel> {
    match k {
        Some(k) => Some(k@),
        None => None,
    }
}

fn row_under(ws: Option<&Workspace>, sel: usize) -> (r: Option<ChangeRow>)
    ensures
        match r {
            Some(row) => change_at(ws, sel) == Some(row@),
            None => change_at(ws, sel) is None,
        },
{
    match ws {
        Some(w) => match &w.changes {
            Some(c) => {
                let mut rows = change_rows(c);
                if sel < rows.len() {
                    assert(rows_model(rows@)[sel as int] == rows@[sel as int]@);
                    Some(rows.swap_remove(sel))
                } else {
                    None
                }
            },
            None => None,
        },
        None => None,
    }
}

/// The diff that opening the row under the cursor shows.
pub fn diff_under_cursor(ws: Option<&Workspace>, sel: usize) -> (r: Option<DiffKind>)
    ensures
        opt_kind(r) == diff_at(ws, sel),
{
    match row_under(ws, sel) {
        None => None,
        Some(ChangeRow::Header(Section::Unstaged)) => Some(DiffKind::Unstaged { path: None }),
        Some(ChangeRow::Header(Section::Staged)) => Some(DiffKind::Staged { path: None }),
        Some(ChangeRow::Header(_)) => None,
        Some(ChangeRow::File { path, staged }) => if staged {
            Some(DiffKind::Staged { path: Some(path) })
        } else {
            Some(DiffKind::Unstaged { path: Some(path) })
        },
        Some(ChangeRow::Conflicted { path }) => Some(DiffKind::Unstaged { path: Some(path) }),
        Some(ChangeRow::Commit { id, summary }) => Some(DiffKind::Commit { id, summary }),
    }
}

/// The question before the changes to a file are thrown away.
pub open spec fn discard_question(path: Seq<char>) -> crate::types::OverlayModel {
    question(
        "DISCARD"@,
        "throw away changes to "@ + path,
        ConfirmKindOf::Discard { path },
    )
}

/// Asks before the changes to a file are thrown away.
pub fn ask_discard(path: String) -> (o: crate::types::Overlay)
    ensures
        o@ == discard_question(path@),
{
    let header = cat("throw away changes to ", path.as_str());
    ask("DISCARD", header, ConfirmKind::Discard { path })
}

/// What a commit would hold, as the prompt for its message says it.
pub open spec fn commit_subtitle(c: Changes, all: bool) -> Seq<char> {
    if all {
        decimal(c.staged@.len() + c.unstaged@.len()) + " file(s), staged and unstaged"@
    } else if c.staged@.len() == 0 {
        "nothing staged — this will fail"@
    } else {
        decimal(c.staged@.len()) + " staged file(s)"@
    }
}

/// The prompt for the message of a commit.
pub open spec fn commit_prompt(c: Changes, all: bool) -> crate::types::OverlayModel {
    blank_prompt(
        if all {
            "COMMIT ALL"@
        } else {
            "COMMIT"@
        },
        PromptKindOf::Commit { all },
        commit_subtitle(c, all),
    )
}

fn ask_commit(c: &Changes, all: bool) -> (o: crate::types::Overlay)
    ensures
        o@ == commit_prompt(*c, all),
{
    let staged: usize = c.staged.len();
    let unstaged: usize = c.unstaged.len();
    let subtitle = if all {
        let n = to_decimal(staged as u128 + unstaged as u128);
        cat(n.as_str(), " file(s), staged and unstaged")
    } else if staged == 0 {
        "nothing staged — this will fail".to_owned()
    } else {
        let n = to_decimal(staged as u128);
        cat(n.as_str(), " staged file(s)")
    };
    if all {
        prompt("COMMIT ALL", PromptKind::Commit { all }, subtitle)
    } else {
        prompt("COMMIT", PromptKind::Commit { all }, subtitle)
    }
}

/// What a key does on the changes of a workspace. Each kind of row answers
/// only to its own verbs: what is staged cannot be staged again or discarded,
/// a conflict can only be resolved, and a heading is not a file. Discarding
/// and committing open a box; nothing is thrown away by the key itself.
pub open spec fn changes_key(k: KeyEvent, v: BenchModel, ws: Option<&Workspace>) -> (
    BenchModel,
    Option<FlowModel>,
) {
    match (ws, k.code) {
        (Some(w), KeyCode::Char(c)) => match w.changes {
            Some(changes) => {
                let row = change_at(ws, v.changes_sel);
                if c == 's' {
                    match row {
                        Some(ChangeRowOf::File { path, staged: false }) => (
                            v,
                            Some(FlowOf::Git(GitActionOf::Stage(path))),
                        ),
                        _ => (v, None),
                    }
                } else if c == 'u' {
                    match row {
                        Some(ChangeRowOf::File { path, staged: true }) => (
                            v,
                            Some(FlowOf::Git(GitActionOf::Unstage(path))),
                        ),
                        _ => (v, None),
                    }
                } else if c == 'x' {
                    match row {
                        Some(ChangeRowOf::File { path, staged: false }) => (
                            BenchOf { overlay: Some(discard_question(path)), ..v },
                            Some(FlowOf::Continue),
                        ),
                        _ => (v, None),
                    }
                } else if c == 'd' {
                    match diff_at(ws, v.changes_sel) {
                        Some(kind) => (v, Some(FlowOf::OpenDiff { kind, keep_cursor: false })),
                        None => (v, None),
                    }
                } else if c == 'o' || c == 't' || c == 'a' {
                    match row {
                        Some(ChangeRowOf::Conflicted { path }) => (
                            v,
                            Some(
                                FlowOf::Git(
                                    GitActionOf::Resolve {
                                        path,
                                        take: if c == 'o' {
                                            ResolveSide::Ours
                                        } else if c == 't' {
                                            ResolveSide::Theirs
                                        } else {
                                            ResolveSide::Resolved
                                        },
                                    },
                                ),
                            ),
                        ),
                        _ => (v, None),
                    }
                } else if c == 'c' || c == 'C' {
                    (
                        BenchOf { overlay: Some(commit_prompt(changes, c == 'C')), ..v },
                        Some(FlowOf::Continue),
                    )
                } else if c == 'p' && changes.ahead > 0 {
                    (v, Some(FlowOf::Git(GitActionOf::Push)))
                } else {
                    (v, None)
                }
            },
            None => (v, None),
        },
        _ => (v, None),
    }
}

/// Does what a key does on the changes of a workspace.
pub fn handle_changes_key(k: KeyEvent, view: &mut Bench, ws: Option<&Workspace>) -> (r: Option<
    Flow,
>)
    ensures
        (final(view)@, opt_flow(r)) == changes_key(k, old(view)@, ws),
{
    let w = match ws {
        Some(w) => w,
        None => {
            return None;
        },
    };
    let changes = match &w.changes {
        Some(c) => c,
        None => {
            return None;
        },
    };
    let row = row_under(ws, view.changes_sel);
    match k.code {
        KeyCode::Char('s') => match row {
            Some(ChangeRow::File { path, staged: false }) => Some(Flow::Git(GitAction::Stage(path))),
            _ => None,
        },
        KeyCode::Char('u') => match row {
            Some(ChangeRow::File { path, staged: true }) => Some(
                Flow::Git(GitAction::Unstage(path)),
            ),
            _ => None,
        },
        KeyCode::Char('x') => match row {
            Some(ChangeRow::File { path, staged: false }) => {
                view.overlay = Some(ask_discard(path));
                Some(Flow::Continue)
            },
            _ => None,
        },
        KeyCode::Char('d') => match diff_under_cursor(ws, view.changes_sel) {
            Some(kind) => Some(Flow::OpenDiff { kind, keep_cursor: false }),
            None => None,
        },
        KeyCode::Char('o') => match row {
            Some(ChangeRow::Conflicted { path }) => Some(
                Flow::Git(GitAction::Resolve { path, take: ResolveSide::Ours }),
            ),
            _ => None,
        },
        KeyCode::Char('t') => match row {
            Some(ChangeRow::Conflicted { path }) => Some(
                Flow::Git(GitAction::Resolve { path, take: ResolveSide::Theirs }),
            ),
            _ => None,
        },
        KeyCode::Char('a') => match row {
            Some(ChangeRow::Conflicted { path }) => Some(
                Flow::Git(GitAction::Resolve { path, take: ResolveSide::Resolved }),
            ),
            _ => None,
        },
        KeyCode::Char('c') => {
            view.overlay = Some(ask_commit(changes, false));
            Some(Flow::Continue)
        },
        KeyCode::Char('C') => {
            view.overlay = Some(ask_commit(changes, true));
            Some(Flow::Continue)
        },
        KeyCode::Char('p') => if changes.ahead > 0 {
            Some(Flow::Git(GitAction::Push))
        } else {
            None
        },
        _ => None,
    }
}

/// No key on the changes throws work away by itself: discarding comes only
/// from the question that the key opens, and that opens on no.
pub proof fn discarding_is_asked_about(k: KeyEvent, v: BenchModel, ws: Option<&Workspace>)
    ensures
        !(changes_key(k, v, ws).1 matches Some(FlowOf::Git(GitActionOf::Discard(_)))),
        v.overlay is None ==> (changes_key(k, v, ws).0.overlay matches Some(
            crate::types::OverlayOf::Confirm(c),
        ) ==> !c.yes),
        (BenchOf { overlay: v.overlay, ..changes_key(k, v, ws).0 }) == v,
{
}

/// The changes are listed as conflicts, what is not staged, what is, and the
/// last commits. Each section has its heading and then its own rows in order,
/// and a section with nothing in it is not listed at all.
pub proof fn the_changes_are_listed_section_after_section(c: Changes, i: int)
    ensures
        ({
            let rows = listed_changes(c);
            let held = |n: nat|
                if n == 0 {
                    0
                } else {
                    n + 1
                };
            let a = held(c.conflicted@.len());
            let b = a + held(c.unstaged@.len());
            let s = b + held(c.staged@.len());
            &&& rows.len() == s + held(c.recent_commits@.len())
            &&& c.conflicted@.len() > 0 ==> rows[0] == ChangeRowOf::<Seq<char>>::Header(
                Section::Conflicted,
            )
            &&& 0 <= i < c.conflicted@.len() ==> rows[1 + i] == (ChangeRowOf::Conflicted {
                path: c.conflicted@[i]@,
            })
            &&& c.unstaged@.len() > 0 ==> rows[a as int] == ChangeRowOf::<Seq<char>>::Header(
                Section::Unstaged,
            )
            &&& 0 <= i < c.unstaged@.len() ==> rows[a + 1 + i] == (ChangeRowOf::File {
                path: c.unstaged@[i]@,
                staged: false,
            })
            &&& c.staged@.len() > 0 ==> rows[b as int] == ChangeRowOf::<Seq<char>>::Header(
                Section::Staged,
            )
            &&& 0 <= i < c.staged@.len() ==> rows[b + 1 + i] == (ChangeRowOf::File {
                path: c.staged@[i]@,
                staged: true,
            })
            &&& c.recent_commits@.len() > 0 ==> rows[s as int] == ChangeRowOf::<
                Seq<char>,
            >::Header(Section::Commits)
            &&& 0 <= i < c.recent_commits@.len() ==> rows[s + 1 + i] == (ChangeRowOf::Commit {
                id: c.recent_commits@[i].id@,
                summary: c.recent_commits@[i].summary@,
            })
        }),
{
}

/// A row of the changes stands for its own diff: a file for its side of the
/// index, a conflict for the working tree, a commit for itself, and a heading
/// for the whole of its side, where there is one.
pub proof fn a_row_stands_for_its_own_diff(
    ws: Option<&Workspace>,
    sel: usize,
    path: Seq<char>,
    id: Seq<char>,
    summary: Seq<char>,
)
    ensures
        change_at(ws, sel) == Some(ChangeRowOf::File { path, staged: false }) ==> diff_at(ws, sel)
            == Some(DiffKindOf::Unstaged { path: Some(path) }),
        change_at(ws, sel) == Some(ChangeRowOf::File { path, staged: true }) ==> diff_at(ws, sel)
            == Some(DiffKindOf::Staged { path: Some(path) }),
        change_at(ws, sel) == Some(ChangeRowOf::Conflicted { path }) ==> diff_at(ws, sel) == Some(
            DiffKindOf::Unstaged { path: Some(path) },
        ),
        change_at(ws, sel) == Some(ChangeRowOf::Commit { id, summary }) ==> diff_at(ws, sel) == Some(
            DiffKindOf::Commit { id, summary },
        ),
        change_at(ws, sel) == Some(ChangeRowOf::<Seq<char>>::Header(Section::Unstaged))
            ==> diff_at(ws, sel) == Some(DiffKindOf::<Seq<char>>::Unstaged { path: None }),
        change_at(ws, sel) == Some(ChangeRowOf::<Seq<char>>::Header(Section::Staged)) ==> diff_at(
            ws,
            sel,
        ) == Some(DiffKindOf::<Seq<char>>::Staged { path: None }),
        change_at(ws, sel) == Some(ChangeRowOf::<Seq<char>>::Header(Section::Conflicted))
            ==> diff_at(ws, sel) is None,
        change_at(ws, sel) == Some(ChangeRowOf::<Seq<char>>::Header(Section::Commits)) ==> diff_at(
            ws,
            sel,
        ) is None,
        change_at(ws, sel) is None ==> diff_at(ws, sel) is None,
{
}

/// The cursor is on the row of the list that it counts to, and on none past
/// its end or where there is no repository.
pub proof fn a_cursor_counts_the_rows(w: &Workspace, c: Changes, sel: usize)
    ensures
        w.changes == Some(c) && sel < listed_changes(c).len() ==> change_at(Some(w), sel) == Some(
            listed_changes(c)[sel as int],
        ),
        w.changes == Some(c) && sel >= listed_changes(c).len() ==> change_at(Some(w), sel) is None,
        w.changes is None ==> change_at(Some(w), sel) is None,
        change_at(None, sel) is None,
{
}

/// On a file that is not staged `s` stages it and `x` asks whether to throw it
/// away; on one that is staged `u` unstages it. Neither answers to the other's
/// keys.
pub proof fn a_file_is_staged_from_its_own_side(
    k: KeyEvent,
    v: BenchModel,
    w: &Workspace,
    path: Seq<char>,
)
    requires
        w.changes is Some,
    ensures
        ({
            let r = changes_key(k, v, Some(w));
            let row = change_at(Some(w), v.changes_sel);
            &&& row == Some(ChangeRowOf::File { path, staged: false }) ==> {
                &&& k.code == KeyCode::Char('s') ==> r == (
                    v,
                    Some(FlowOf::Git(GitActionOf::Stage(path))),
                )
                &&& k.code == KeyCode::Char('u') ==> r == (v, None::<FlowModel>)
                &&& k.code == KeyCode::Char('x') ==> r.1 == Some(FlowOf::<Seq<char>>::Continue)
                    && (r.0.overlay matches Some(crate::types::OverlayOf::Confirm(c)) && !c.yes
                    && c.kind == (ConfirmKindOf::Discard { path }) && c.header
                    == "throw away changes to "@ + path)
            }
            &&& row == Some(ChangeRowOf::File { path, staged: true }) ==> {
                &&& k.code == KeyCode::Char('u') ==> r == (
                    v,
                    Some(FlowOf::Git(GitActionOf::Unstage(path))),
                )
                &&& k.code == KeyCode::Char('s') || k.code == KeyCode::Char('x') ==> r == (
                    v,
                    None::<FlowModel>,
                )
            }
        }),
{
}

/// On a conflict `o` takes our side, `t` theirs, and `a` what has been made of
/// it; `d` opens the diff of any row that has one.
pub proof fn a_conflict_is_resolved_to_the_side_asked_for(
    k: KeyEvent,
    v: BenchModel,
    w: &Workspace,
    path: Seq<char>,
)
    requires
        w.changes is Some,
    ensures
        ({
            let r = changes_key(k, v, Some(w));
            let takes = |side: ResolveSide|
                r == (v, Some(FlowOf::Git(GitActionOf::Resolve { path, take: side })));
            &&& change_at(Some(w), v.changes_sel) == Some(ChangeRowOf::Conflicted { path }) ==> {
                &&& k.code == KeyCode::Char('o') ==> takes(ResolveSide::Ours)
                &&& k.code == KeyCode::Char('t') ==> takes(ResolveSide::Theirs)
                &&& k.code == KeyCode::Char('a') ==> takes(ResolveSide::Resolved)
                &&& k.code == KeyCode::Char('s') || k.code == KeyCode::Char('u') || k.code
                    == KeyCode::Char('x') ==> r == (v, None::<FlowModel>)
            }
            &&& k.code == KeyCode::Char('d') ==> r.0 == v && (match diff_at(
                Some(w),
                v.changes_sel,
            ) {
                Some(kind) => r.1 == Some(FlowOf::OpenDiff { kind, keep_cursor: false }),
                None => r.1 is None,
            })
        }),
{
}

/// `c` asks for the message of a commit of what is staged and `C` of one of
/// everything, and `p` pushes where there is something to push.
pub proof fn a_commit_is_asked_for_its_message(
    k: KeyEvent,
    v: BenchModel,
    w: &Workspace,
    c: Changes,
)
    requires
        w.changes == Some(c),
    ensures
        ({
            let r = changes_key(k, v, Some(w));
            let asks = |title: Seq<char>, all: bool, says: Seq<char>|
                r.1 == Some(FlowOf::<Seq<char>>::Continue) && (r.0.overlay matches Some(
                    crate::types::OverlayOf::Prompt(p),
                ) && p.title == title && p.kind == (PromptKindOf::<Seq<char>>::Commit { all })
                    && p.text.len() == 0 && p.cursor == 0 && p.subtitle == Some(says));
            &&& k.code == KeyCode::Char('c') && c.staged@.len() == 0 ==> asks(
                "COMMIT"@,
                false,
                "nothing staged — this will fail"@,
            )
            &&& k.code == KeyCode::Char('c') && c.staged@.len() > 0 ==> asks(
                "COMMIT"@,
                false,
                decimal(c.staged@.len()) + " staged file(s)"@,
            )
            &&& k.code == KeyCode::Char('C') ==> asks(
                "COMMIT ALL"@,
                true,
                decimal(c.staged@.len() + c.unstaged@.len()) + " file(s), staged and unstaged"@,
            )
            &&& k.code == KeyCode::Char('p') && c.ahead > 0 ==> r == (
                v,
                Some(FlowOf::Git(GitActionOf::<Seq<char>>::Push)),
            )
            &&& k.code == KeyCode::Char('p') && c.ahead == 0 ==> r == (v, None::<FlowModel>)
        }),
{
}

} // verus!
