//! The pages that lie over the stage: the trees of files, the containers, the
//! settings, the help and the usage, and what keys, clicks and the wheel do on
//! them.
use vstd::prelude::*;

use crate::bench::{new_shell, shell_flow, step, stepped};
use crate::encode::{quoted, shell_quote};
use crate::git::{find_verb, verb_named, Verb, VerbId};
use crate::overlay::{ask, question};
use crate::path::{dir_above, parent_of};
use crate::text::{cat, cat3, opt_text};
use crate::types::{
    opt_flow, Bench, BenchModel, BenchOf, ConfirmKind, ConfirmKindOf, Edit, Flow, FlowModel,
    FlowOf, Focus, KeyCode, KeyEvent, Page, PaneId, Spawned, SpawnedOf,
};

verus! {

/// An entry of a workspace's tree.
#[verifier::ext_equal]
#[derive(Clone, Debug, PartialEq, Eq)]
pub struct FileEntryOf<S> {
    pub name: S,
    pub path: S,
    pub is_dir: bool,
    pub changed: bool,
}

pub type FileEntry = FileEntryOf<String>;

pub type FileEntryModel = FileEntryOf<Seq<char>>;

impl View for FileEntryOf<String> {
    type V = FileEntryOf<Seq<char>>;

    open spec fn view(&self) -> FileEntryOf<Seq<char>> {
        FileEntryOf {
            name: self.name@,
            path: self.path@,
            is_dir: self.is_dir,
            changed: self.changed,
        }
    }
}

/// What a list of entries holds.
pub open spec fn entries_model(v: Seq<FileEntry>) -> Seq<FileEntryModel> {
    Seq::new(v.len(), |i: int| v[i]@)
}

/// Whether a file is being read or edited.
#[derive(Clone, Copy, Debug, PartialEq, Eq, Structural)]
pub enum EditMode {
    Read,
    Edit,
}

/// Something to be done to the text of a file, for whoever holds it to carry
/// out.
#[verifier::ext_equal]
#[derive(Clone, Debug, PartialEq, Eq)]
pub enum EditorStepOf<S> {
    Scroll(isize),
    ScrollTo(usize),
    Input(KeyEvent),
    Insert(S),
}

pub type EditorStep = EditorStepOf<String>;

pub type EditorStepModel = EditorStepOf<Seq<char>>;

impl View for EditorStepOf<String> {
    type V = EditorStepOf<Seq<char>>;

    open spec fn view(&self) -> EditorStepOf<Seq<char>> {
        match *self {
            EditorStepOf::Scroll(n) => EditorStepOf::Scroll(n),
            EditorStepOf::ScrollTo(n) => EditorStepOf::ScrollTo(n),
            EditorStepOf::Input(k) => EditorStepOf::Input(k),
            EditorStepOf::Insert(t) => EditorStepOf::Insert(t@),
        }
    }
}

/// What a list of things to be done holds.
pub open spec fn steps_model(v: Seq<EditorStep>) -> Seq<EditorStepModel> {
    Seq::new(v.len(), |i: int| v[i]@)
}

/// A file that is open: where it is, whether it is being edited, whether it
/// holds something that has not been saved, and whether the next attempt to
/// close it throws that away.
#[verifier::ext_equal]
#[derive(Clone, Debug, PartialEq, Eq)]
pub struct EditorOf<S, Q> {
    pub path: S,
    pub mode: EditMode,
    pub unsaved: bool,
    pub armed: bool,
    pub notice: Option<S>,
    pub steps: Q,
}

pub type Editor = EditorOf<String, Vec<EditorStep>>;

pub type EditorModel = EditorOf<Seq<char>, Seq<EditorStepModel>>;

impl View for EditorOf<String, Vec<EditorStep>> {
    type V = EditorModel;

    open spec fn view(&self) -> EditorModel {
        EditorOf {
            path: self.path@,
            mode: self.mode,
            unsaved: self.unsaved,
            armed: self.armed,
            notice: opt_text(self.notice),
            steps: steps_model(self.steps@),
        }
    }
}

/// What an optional open file is.
pub open spec fn opt_editor(e: Option<Editor>) -> Option<EditorModel> {
    match e {
        Some(e) => Some(e@),
        None => None,
    }
}

/// A file with one more thing to be done to its text.
pub open spec fn editor_asked(e: EditorModel, s: EditorStepModel) -> EditorModel {
    EditorOf { steps: e.steps.push(s), ..e }
}

/// A file as it opens: to be read.
pub open spec fn opened(path: Seq<char>) -> EditorModel {
    EditorOf {
        path,
        mode: EditMode::Read,
        unsaved: false,
        armed: false,
        notice: None,
        steps: Seq::empty(),
    }
}

/// A file after an attempt to close it. One with something unsaved refuses
/// once, and the next attempt throws that away.
pub open spec fn after_close(e: EditorModel) -> EditorModel {
    EditorOf { armed: e.unsaved || e.armed, ..e }
}

/// Whether an attempt to close a file succeeds.
pub open spec fn closes(e: EditorModel) -> bool {
    !e.unsaved || e.armed
}

/// A file whose text has changed.
pub open spec fn touched(e: EditorModel) -> EditorModel {
    EditorOf { unsaved: true, armed: false, ..e }
}

/// A file whose text has been saved.
pub open spec fn saved(e: EditorModel) -> EditorModel {
    EditorOf { unsaved: false, armed: false, ..e }
}

impl EditorOf<String, Vec<EditorStep>> {
    /// Opens a file to be read.
    pub fn new(path: String) -> (e: Editor)
        ensures
            e@ == opened(path@),
    {
        let e: Editor = EditorOf {
            path,
            mode: EditMode::Read,
            unsaved: false,
            armed: false,
            notice: None,
            steps: Vec::new(),
        };
        assert(steps_model(e.steps@) =~= Seq::empty());
        e
    }

    /// Attempts to close the file.
    pub fn may_close(&mut self) -> (r: bool)
        ensures
            r == closes(old(self)@),
            final(self)@ == after_close(old(self)@),
    {
        let can = !self.unsaved || self.armed;
        if self.unsaved {
            self.armed = true;
        }
        can
    }

    /// Notes that the text has changed.
    pub fn touch(&mut self)
        ensures
            final(self)@ == touched(old(self)@),
    {
        self.unsaved = true;
        self.armed = false;
    }

    /// Notes that the text has been saved.
    pub fn saved(&mut self)
        ensures
            final(self)@ == saved(old(self)@),
    {
        self.unsaved = false;
        self.armed = false;
    }

    /// Asks for something to be done to the text.
    pub fn ask(&mut self, s: EditorStep)
        ensures
            final(self)@ == editor_asked(old(self)@, s@),
    {
        let ghost before = self.steps@;
        self.steps.push(s);
        assert(steps_model(self.steps@) =~= steps_model(before).push(s@));
    }
}

/// A file with unsaved text is closed by the second attempt in a row and not
/// by the first; a change in between starts the count again.
pub proof fn unsaved_text_is_thrown_away_only_on_the_second_attempt(e: EditorModel)
    requires
        e.unsaved,
        !e.armed,
    ensures
        !closes(e),
        closes(after_close(e)),
        !closes(touched(after_close(e))),
        closes(saved(e)),
{
}

/// A tree of files: the directory it shows, its entries, the cursor, and the
/// file that is open beside it.
#[verifier::ext_equal]
#[derive(Clone, Debug, PartialEq, Eq)]
pub struct FilesOf<S, E, Q> {
    pub dir: S,
    pub entries: E,
    pub sel: usize,
    pub open: Option<EditorOf<S, Q>>,
}

pub type Files = FilesOf<String, Vec<FileEntry>, Vec<EditorStep>>;

pub type FilesModel = FilesOf<Seq<char>, Seq<FileEntryModel>, Seq<EditorStepModel>>;

impl View for FilesOf<String, Vec<FileEntry>, Vec<EditorStep>> {
    type V = FilesModel;

    open spec fn view(&self) -> FilesModel {
        FilesOf {
            dir: self.dir@,
            entries: entries_model(self.entries@),
            sel: self.sel,
            open: opt_editor(self.open),
        }
    }
}

/// A tree before anything has been read.
pub open spec fn blank_files() -> FilesModel {
    FilesOf { dir: Seq::empty(), entries: Seq::empty(), sel: 0, open: None }
}

impl Default for FilesOf<String, Vec<FileEntry>, Vec<EditorStep>> {
    fn default() -> (f: Self)
        ensures
            f@ == blank_files(),
    {
        let f: Files = FilesOf { dir: String::new(), entries: Vec::new(), sel: 0, open: None };
        assert(entries_model(f.entries@) =~= Seq::empty());
        f
    }
}

/// The entry that the cursor of a tree is on.
pub open spec fn entry_at(f: FilesModel) -> Option<FileEntryModel> {
    if f.sel < f.entries.len() {
        Some(f.entries[f.sel as int])
    } else {
        None
    }
}

/// The rows of a directory: the way back up where there is one, and its
/// entries as they were listed.
pub open spec fn listed(entries: Seq<FileEntryModel>, dir: Seq<char>) -> Seq<FileEntryModel> {
    match dir_above(dir) {
        Some(up) => seq![
            FileEntryOf { name: ".."@, path: up, is_dir: true, changed: false },
        ] + entries,
        None => entries,
    }
}

/// Lists a directory with the way back up. The page makes no difference: what
/// is listed was chosen where it was read.
pub fn tree_rows(_page: Page, entries: Vec<FileEntry>, dir: &str) -> (rows: Vec<FileEntry>)
    ensures
        entries_model(rows@) == listed(entries_model(entries@), dir@),
{
    let mut rows = entries;
    if let Some(up) = parent_of(dir) {
        let ghost before = rows@;
        let way = FileEntryOf { name: "..".to_owned(), path: up, is_dir: true, changed: false };
        rows.insert(0, way);
        assert(entries_model(rows@) =~= seq![way@] + entries_model(before));
    }
    rows
}

/// The tree that a page shows.
pub fn page_tree<'a>(page: Page, files: &'a mut Files, docs: &'a mut Files) -> (r: &'a mut Files)
    ensures
        page is Docs ==> *r == *old(docs) && *final(docs) == *final(r) && *final(files) == *old(files),
        page !is Docs ==> *r == *old(files) && *final(files) == *final(r) && *final(docs) == *old(docs),
{
    if page == Page::Docs {
        docs
    } else {
        files
    }
}

/// A tree that shows another directory.
pub open spec fn tree_showing(f: FilesModel, entries: Seq<FileEntryModel>, dir: Seq<char>) -> FilesModel {
    FilesOf { dir, entries: listed(entries, dir), sel: 0, ..f }
}

/// Shows what was read of a directory, with the cursor on the first row.
pub fn show_tree(page: Page, tree: &mut Files, entries: Vec<FileEntry>, dir: String)
    ensures
        final(tree)@ == tree_showing(old(tree)@, entries_model(entries@), dir@),
{
    let rows = tree_rows(page, entries, dir.as_str());
    tree.dir = dir;
    tree.entries = rows;
    tree.sel = 0;
}

/// What a key does while a file is being edited: only saving and escape are
/// not the text's.
pub open spec fn editor_key(k: KeyEvent, e: EditorModel) -> (EditorModel, FlowModel) {
    if k.ctrl && k.code == KeyCode::Char('s') {
        (e, FlowOf::SaveFile)
    } else if k.code is Esc {
        (EditorOf { mode: EditMode::Read, ..e }, FlowOf::Continue)
    } else {
        (editor_asked(e, EditorStepOf::Input(k)), FlowOf::Continue)
    }
}

/// Does what a key does while a file is being edited.
pub fn handle_editor_key(k: KeyEvent, open: &mut Editor) -> (f: Flow)
    ensures
        (final(open)@, f@) == editor_key(k, old(open)@),
{
    if k.ctrl && k.code == KeyCode::Char('s') {
        return Flow::SaveFile;
    }
    if k.code == KeyCode::Esc {
        open.mode = EditMode::Read;
        return Flow::Continue;
    }
    open.ask(EditorStep::Input(k));
    Flow::Continue
}

/// The question before a file is deleted.
pub open spec fn delete_question(path: Seq<char>) -> crate::types::OverlayModel {
    question(
        "DELETE"@,
        "delete "@ + path + " — this cannot be undone"@,
        ConfirmKindOf::DeleteFile { path },
    )
}

/// What a key does on a page with a tree. With the keyboard on the stage the
/// arrows move the file that is open, and elsewhere the cursor of the tree. A
/// file is deleted only through a question, and a directory not at all.
pub open spec fn files_key(k: KeyEvent, v: BenchModel, f: FilesModel) -> (
    BenchModel,
    FilesModel,
    Option<FlowModel>,
) {
    let editing = match f.open {
        Some(e) => e.mode is Edit,
        None => false,
    };
    let none = (v, f, None::<FlowModel>);
    let heard = Some(FlowOf::<Seq<char>>::Continue);
    let go = |d: int|
        if v.focus !is Stage {
            (
                v,
                FilesOf { sel: stepped(f.sel as int, d, f.entries.len() as int) as usize, ..f },
                heard,
            )
        } else {
            match f.open {
                Some(e) => (
                    v,
                    FilesOf {
                        open: Some(editor_asked(e, EditorStepOf::Scroll(d as isize))),
                        ..f
                    },
                    heard,
                ),
                None => none,
            }
        };
    let shut = match f.open {
        Some(e) => (
            if closes(e) {
                BenchOf { page: Page::Agents, ..v }
            } else {
                v
            },
            FilesOf { open: Some(after_close(e)), ..f },
            heard,
        ),
        None => (BenchOf { page: Page::Agents, ..v }, f, heard),
    };
    if editing {
        let e = editor_key(k, f.open->0);
        (v, FilesOf { open: Some(e.0), ..f }, Some(e.1))
    } else {
        match k.code {
            KeyCode::Down => go(1),
            KeyCode::Up => go(-1),
            KeyCode::Enter => match entry_at(f) {
                Some(e) => (
                    v,
                    f,
                    Some(
                        if e.is_dir {
                            FlowOf::ListDir(e.path)
                        } else {
                            FlowOf::OpenFile(e.path)
                        },
                    ),
                ),
                None => none,
            },
            KeyCode::Backspace => match dir_above(f.dir) {
                Some(up) => (v, f, Some(FlowOf::ListDir(up))),
                None => none,
            },
            KeyCode::Esc => shut,
            KeyCode::Char(c) => if c == 'j' {
                go(1)
            } else if c == 'k' {
                go(-1)
            } else if c == 'q' {
                shut
            } else if c == 'x' {
                match entry_at(f) {
                    Some(e) => if e.is_dir {
                        (v, f, heard)
                    } else {
                        (BenchOf { overlay: Some(delete_question(e.path)), ..v }, f, heard)
                    },
                    None => none,
                }
            } else if c == 'e' || c == 'i' {
                match f.open {
                    Some(e) => (
                        v,
                        FilesOf { open: Some(EditorOf { mode: EditMode::Edit, ..e }), ..f },
                        heard,
                    ),
                    None => none,
                }
            } else {
                none
            },
            _ => none,
        }
    }
}

fn move_tree(view: &Bench, files: &mut Files, d: isize) -> (r: Option<Flow>)
    requires
        d == 1 || d == -1,
    ensures
        view@.focus !is Stage ==> final(files)@ == (FilesOf {
            sel: stepped(old(files)@.sel as int, d as int, old(files)@.entries.len() as int) as usize,
            ..old(files)@
        }) && opt_flow(r) == Some(FlowOf::<Seq<char>>::Continue),
        view@.focus is Stage ==> (match old(files)@.open {
            Some(e) => final(files)@ == (FilesOf {
                open: Some(editor_asked(e, EditorStepOf::Scroll(d))),
                ..old(files)@
            }) && opt_flow(r) == Some(FlowOf::<Seq<char>>::Continue),
            None => final(files)@ == old(files)@ && r is None,
        }),
{
    if view.focus != Focus::Stage {
        files.sel = step(files.sel, d, files.entries.len());
        return Some(Flow::Continue);
    }
    match files.open.take() {
        Some(mut e) => {
            e.ask(EditorStep::Scroll(d));
            files.open = Some(e);
            Some(Flow::Continue)
        },
        None => None,
    }
}

/// Does what a key does on a page with a tree.
pub fn handle_files_key(k: KeyEvent, view: &mut Bench, files: &mut Files) -> (r: Option<Flow>)
    ensures
        (final(view)@, final(files)@, opt_flow(r)) == files_key(k, old(view)@, old(files)@),
{
    let editing = match &files.open {
        Some(e) => e.mode == EditMode::Edit,
        None => false,
    };
    if editing {
        return match files.open.take() {
            Some(mut e) => {
                let flow = handle_editor_key(k, &mut e);
                files.open = Some(e);
                Some(flow)
            },
            None => None,
        };
    }
    let at: Option<usize> = if files.sel < files.entries.len() {
        assert(entries_model(files.entries@)[files.sel as int] == files.entries@[files.sel as int]@);
        Some(files.sel)
    } else {
        None
    };
    match k.code {
        KeyCode::Down | KeyCode::Char('j') => move_tree(view, files, 1),
        KeyCode::Up | KeyCode::Char('k') => move_tree(view, files, -1),
        KeyCode::Enter => match at {
            Some(i) => {
                let path = files.entries[i].path.clone();
                Some(
                    if files.entries[i].is_dir {
                        Flow::ListDir(path)
                    } else {
                        Flow::OpenFile(path)
                    },
                )
            },
            None => None,
        },
        KeyCode::Backspace => match parent_of(files.dir.as_str()) {
            Some(up) => Some(Flow::ListDir(up)),
            None => None,
        },
        KeyCode::Char('x') => match at {
            Some(i) => {
                if !files.entries[i].is_dir {
                    let path = files.entries[i].path.clone();
                    let header = cat3("delete ", path.as_str(), " — this cannot be undone");
                    view.overlay = Some(ask("DELETE", header, ConfirmKind::DeleteFile { path }));
                }
                Some(Flow::Continue)
            },
            None => None,
        },
        KeyCode::Char('e') | KeyCode::Char('i') => match files.open.take() {
            Some(mut e) => {
                e.mode = EditMode::Edit;
                files.open = Some(e);
                Some(Flow::Continue)
            },
            None => None,
        },
        KeyCode::Esc | KeyCode::Char('q') => {
            match files.open.take() {
                Some(mut e) => {
                    if e.may_close() {
                        view.page = Page::Agents;
                    }
                    files.open = Some(e);
                },
                None => {
                    view.page = Page::Agents;
                },
            }
            Some(Flow::Continue)
        },
        _ => None,
    }
}

/// No key on a page with a tree deletes anything by itself; the question it
/// opens is about a file, never a directory, and opens on no.
pub proof fn deleting_is_asked_about(k: KeyEvent, v: BenchModel, f: FilesModel)
    ensures
        !(files_key(k, v, f).2 matches Some(FlowOf::DeleteFile(_))),
        !(files_key(k, v, f).2 matches Some(FlowOf::Detach)),
        files_key(k, v, f).0.overlay != v.overlay ==> (entry_at(f) matches Some(e) && !e.is_dir
            && files_key(k, v, f).0.overlay == Some(delete_question(e.path))),
{
}

/// A stack of containers: its name, the compose project and directory it
/// belongs to, where it has them, and the names of its containers.
#[derive(Clone, Debug, PartialEq, Eq)]
pub struct Stack {
    pub label: String,
    pub project: String,
    pub workdir: String,
    pub containers: Vec<String>,
}

/// A row of the container page: a stack, or one container of it.
#[derive(Clone, Debug, PartialEq, Eq)]
pub enum DockerRow {
    Stack(usize),
    Container { stack: usize, name: String },
}

/// The stack that a row belongs to.
pub open spec fn stack_of(row: DockerRow) -> usize {
    match row {
        DockerRow::Stack(i) => i,
        DockerRow::Container { stack, name } => stack,
    }
}

/// Whether every row belongs to one of the stacks there are.
pub open spec fn rows_fit(rows: Seq<DockerRow>, stacks: Seq<Stack>) -> bool {
    forall|i: int| 0 <= i < rows.len() ==> stack_of(#[trigger] rows[i]) < stacks.len()
}

/// The container page: its cursor, and the pane whose logs it follows.
#[derive(Clone, Copy, Debug, PartialEq, Eq, Structural)]
pub struct Docker {
    pub sel: usize,
    pub logs: Option<PaneId>,
}

/// Names as words of a shell command, one after the other.
pub open spec fn quoted_names(names: Seq<String>) -> Seq<char>
    decreases names.len(),
{
    if names.len() == 0 {
        Seq::empty()
    } else if names.len() == 1 {
        quoted(names[0]@)
    } else {
        quoted_names(names.drop_last()) + " "@ + quoted(names.last()@)
    }
}

fn quote_names(names: &Vec<String>) -> (s: String)
    ensures
        s@ == quoted_names(names@),
{
    let mut s = String::new();
    let mut i: usize = 0;
    assert(names@.take(0) =~= Seq::<String>::empty());
    while i < names.len()
        invariant
            i <= names@.len(),
            s@ == quoted_names(names@.take(i as int)),
        decreases names@.len() - i,
    {
        let word = shell_quote(names[i].as_str());
        proof {
            assert(names@.take(i as int + 1).drop_last() =~= names@.take(i as int));
            assert(names@.take(i as int + 1).last() == names@[i as int]);
        }
        if i > 0 {
            s.append(" ");
            s.append(word.as_str());
        } else {
            s = word;
        }
        i = i + 1;
    }
    assert(names@.take(i as int) =~= names@);
    s
}

/// Whether a verb is about logs.
pub open spec fn about_logs(verb: Seq<char>) -> bool {
    verb.len() >= 4 && verb[0] == 'l' && verb[1] == 'o' && verb[2] == 'g' && verb[3] == 's'
}

/// The command that does something to a container, or to a whole stack: to a
/// compose project by its directory or its name, and to a stack that is none
/// by the names of its containers.
pub open spec fn docker_line(stack: Stack, container: Option<Seq<char>>, verb: Seq<char>) -> Seq<char> {
    match container {
        Some(name) => "docker "@ + verb + " "@ + quoted(name),
        None => if stack.project@.len() == 0 {
            "docker "@ + verb + " "@ + quoted_names(stack.containers@)
        } else {
            let sub = if about_logs(verb) {
                "--ansi always "@ + verb
            } else {
                verb
            };
            if stack.workdir@.len() == 0 {
                "docker compose -p "@ + quoted(stack.project@) + " "@ + sub
            } else {
                "cd "@ + quoted(stack.workdir@) + " && docker compose "@ + sub
            }
        },
    }
}

/// Writes the command that does something to a container or a stack.
pub fn docker_command(stack: &Stack, container: Option<&str>, verb: &str) -> (s: String)
    ensures
        s@ == docker_line(
            *stack,
            match container {
                Some(name) => Some(name@),
                None => None,
            },
            verb@,
        ),
{
    if let Some(name) = container {
        let word = shell_quote(name);
        let mut s = cat3("docker ", verb, " ");
        s.append(word.as_str());
        return s;
    }
    if stack.project.as_str().is_empty() {
        let names = quote_names(&stack.containers);
        let mut s = cat3("docker ", verb, " ");
        s.append(names.as_str());
        return s;
    }
    let v = crate::text::chars_of(verb);
    let sub = if v.len() >= 4 && v[0] == 'l' && v[1] == 'o' && v[2] == 'g' && v[3] == 's' {
        cat("--ansi always ", verb)
    } else {
        verb.to_owned()
    };
    if stack.workdir.as_str().is_empty() {
        let word = shell_quote(stack.project.as_str());
        let mut s = cat3("docker compose -p ", word.as_str(), " ");
        s.append(sub.as_str());
        s
    } else {
        let word = shell_quote(stack.workdir.as_str());
        let mut s = cat3("cd ", word.as_str(), " && docker compose ");
        s.append(sub.as_str());
        s
    }
}

/// The row that the cursor of the container page is on; past the end it is on
/// the last.
pub open spec fn docker_at(rows: Seq<DockerRow>, sel: usize) -> Option<DockerRow> {
    if rows.len() == 0 {
        None
    } else if sel < rows.len() {
        Some(rows[sel as int])
    } else {
        Some(rows[rows.len() - 1])
    }
}

/// The name a row goes by.
pub open spec fn row_label(row: DockerRow, stacks: Seq<Stack>) -> Seq<char> {
    match row {
        DockerRow::Stack(i) => stacks[i as int].label@,
        DockerRow::Container { stack, name } => name@,
    }
}

/// The container a row stands for, if it stands for one.
pub open spec fn row_container(row: DockerRow) -> Option<Seq<char>> {
    match row {
        DockerRow::Stack(i) => None,
        DockerRow::Container { stack, name } => Some(name@),
    }
}

/// The container that a shell is opened in: the row's own, or the only one of
/// its stack.
pub open spec fn shell_container(row: DockerRow, stacks: Seq<Stack>) -> Option<Seq<char>> {
    match row {
        DockerRow::Stack(i) => if stacks[i as int].containers@.len() == 1 {
            Some(stacks[i as int].containers@[0]@)
        } else {
            None
        },
        DockerRow::Container { stack, name } => Some(name@),
    }
}

/// What a key does on the container page. Following the logs and opening a
/// shell say where the pane goes; restarting and stopping leave the page as it
/// is.
pub open spec fn docker_key(
    k: KeyEvent,
    v: BenchModel,
    d: Docker,
    stacks: Seq<Stack>,
    rows: Seq<DockerRow>,
) -> (BenchModel, Docker, Option<FlowModel>) {
    let none = (v, d, None::<FlowModel>);
    let heard = Some(FlowOf::<Seq<char>>::Continue);
    let shut = (BenchOf { page: Page::Agents, ..v }, d, heard);
    let go = |by: int|
        (v, Docker { sel: stepped(d.sel as int, by, rows.len() as int) as usize, ..d }, heard);
    let does = |word: Seq<char>|
        match docker_at(rows, d.sel) {
            Some(row) => (
                v,
                d,
                Some(
                    FlowOf::RunProcess {
                        name: word + " "@ + row_label(row, stacks),
                        command: docker_line(
                            stacks[stack_of(row) as int],
                            row_container(row),
                            word,
                        ),
                        then: SpawnedOf::Rail,
                    },
                ),
            ),
            None => none,
        };
    match k.code {
        KeyCode::Esc => shut,
        KeyCode::Down => go(1),
        KeyCode::Up => go(-1),
        KeyCode::Enter => match docker_at(rows, d.sel) {
            Some(row) => (
                v,
                d,
                Some(
                    FlowOf::RunProcess {
                        name: "logs "@ + row_label(row, stacks),
                        command: docker_line(
                            stacks[stack_of(row) as int],
                            row_container(row),
                            "logs -f --tail 200"@,
                        ),
                        then: SpawnedOf::Follow(row_label(row, stacks)),
                    },
                ),
            ),
            None => none,
        },
        KeyCode::Char(c) => if c == 'q' {
            shut
        } else if c == 'j' {
            go(1)
        } else if c == 'k' {
            go(-1)
        } else if c == 'r' {
            does("restart"@)
        } else if c == 'x' {
            does("stop"@)
        } else if c == 's' {
            match docker_at(rows, d.sel) {
                Some(row) => match shell_container(row, stacks) {
                    Some(name) => (
                        v,
                        d,
                        Some(
                            FlowOf::RunProcess {
                                name: row_label(row, stacks),
                                command: "docker exec -it "@ + quoted(name)
                                    + " sh -lc 'exec ${SHELL:-sh}'"@,
                                then: SpawnedOf::Stage,
                            },
                        ),
                    ),
                    None => none,
                },
                None => none,
            }
        } else {
            none
        },
        _ => none,
    }
}

fn label_of_row(row: &DockerRow, stacks: &Vec<Stack>) -> (s: String)
    requires
        stack_of(*row) < stacks@.len(),
    ensures
        s@ == row_label(*row, stacks@),
{
    match row {
        DockerRow::Stack(i) => stacks[*i].label.clone(),
        DockerRow::Container { name, .. } => name.clone(),
    }
}

fn line_of_row(row: &DockerRow, stacks: &Vec<Stack>, verb: &str) -> (s: String)
    requires
        stack_of(*row) < stacks@.len(),
    ensures
        s@ == docker_line(stacks@[stack_of(*row) as int], row_container(*row), verb@),
{
    match row {
        DockerRow::Stack(i) => docker_command(&stacks[*i], None, verb),
        DockerRow::Container { stack, name } => docker_command(
            &stacks[*stack],
            Some(name.as_str()),
            verb,
        ),
    }
}

fn shell_in_row(row: &DockerRow, stacks: &Vec<Stack>) -> (r: Option<String>)
    requires
        stack_of(*row) < stacks@.len(),
    ensures
        opt_text(r) == shell_container(*row, stacks@),
{
    match row {
        DockerRow::Stack(i) => if stacks[*i].containers.len() == 1 {
            Some(stacks[*i].containers[0].clone())
        } else {
            None
        },
        DockerRow::Container { name, .. } => Some(name.clone()),
    }
}

/// Does what a key does on the container page.
pub fn handle_docker_key(
    k: KeyEvent,
    view: &mut Bench,
    docker: &mut Docker,
    stacks: &Vec<Stack>,
    rows: &Vec<DockerRow>,
) -> (r: Option<Flow>)
    requires
        rows_fit(rows@, stacks@),
    ensures
        (final(view)@, *final(docker), opt_flow(r)) == docker_key(
            k,
            old(view)@,
            *old(docker),
            stacks@,
            rows@,
        ),
{
    let n: usize = rows.len();
    let row: Option<&DockerRow> = if n == 0 {
        None
    } else if docker.sel < n {
        Some(&rows[docker.sel])
    } else {
        Some(&rows[n - 1])
    };
    assert(row matches Some(w) ==> stack_of(*w) < stacks@.len());
    match k.code {
        KeyCode::Esc | KeyCode::Char('q') => {
            view.page = Page::Agents;
            Some(Flow::Continue)
        },
        KeyCode::Down | KeyCode::Char('j') => {
            docker.sel = step(docker.sel, 1, n);
            Some(Flow::Continue)
        },
        KeyCode::Up | KeyCode::Char('k') => {
            docker.sel = step(docker.sel, -1, n);
            Some(Flow::Continue)
        },
        KeyCode::Enter => match row {
            Some(w) => {
                let label = label_of_row(w, stacks);
                Some(
                    Flow::RunProcess {
                        name: cat("logs ", label.as_str()),
                        command: line_of_row(w, stacks, "logs -f --tail 200"),
                        then: Spawned::Follow(label),
                    },
                )
            },
            None => None,
        },
        KeyCode::Char('r') => match row {
            Some(w) => {
                let label = label_of_row(w, stacks);
                Some(
                    Flow::RunProcess {
                        name: cat3("restart", " ", label.as_str()),
                        command: line_of_row(w, stacks, "restart"),
                        then: Spawned::Rail,
                    },
                )
            },
            None => None,
        },
        KeyCode::Char('x') => match row {
            Some(w) => {
                let label = label_of_row(w, stacks);
                Some(
                    Flow::RunProcess {
                        name: cat3("stop", " ", label.as_str()),
                        command: line_of_row(w, stacks, "stop"),
                        then: Spawned::Rail,
                    },
                )
            },
            None => None,
        },
        KeyCode::Char('s') => match row {
            Some(w) => match shell_in_row(w, stacks) {
                Some(name) => {
                    let word = shell_quote(name.as_str());
                    Some(
                        Flow::RunProcess {
                            name: label_of_row(w, stacks),
                            command: cat3(
                                "docker exec -it ",
                                word.as_str(),
                                " sh -lc 'exec ${SHELL:-sh}'",
                            ),
                            then: Spawned::Stage,
                        },
                    )
                },
                None => None,
            },
            None => None,
        },
        _ => None,
    }
}

/// The keys that act on a container from its page leave the page where it is,
/// whichever row they act on.
pub proof fn a_container_verb_keeps_the_page(
    k: KeyEvent,
    v: BenchModel,
    d: Docker,
    stacks: Seq<Stack>,
    rows: Seq<DockerRow>,
)
    requires
        k.code == KeyCode::Char('r') || k.code == KeyCode::Char('x'),
    ensures
        docker_key(k, v, d, stacks, rows).0 == v,
        docker_key(k, v, d, stacks, rows).1 == d,
        docker_key(k, v, d, stacks, rows).2 matches Some(FlowOf::RunProcess { name, command, then })
            ==> then is Rail,
{
}

/// The verbs that the footers of the rails advertise. The agents have two
/// footers, as their first verb names the agent that is pinned.
#[derive(Clone, Debug, PartialEq, Eq)]
pub struct RailVerbs {
    pub agents: Vec<Verb>,
    pub agents_pinned: Vec<Verb>,
    pub procs: Vec<Verb>,
}

/// What a key does on a rail of `rows` rows: what its footer says, and nothing
/// where the verb needs a row and there is none.
pub open spec fn rail_flow(k: KeyEvent, focus: Focus, rows: usize, pinned: bool, verbs: RailVerbs) -> Option<
    FlowModel,
> {
    let footer = match focus {
        Focus::Agents => Some(
            if pinned {
                verbs.agents_pinned@
            } else {
                verbs.agents@
            },
        ),
        Focus::Processes => Some(verbs.procs@),
        _ => None,
    };
    match (footer, k.code) {
        (Some(footer), KeyCode::Char(c)) => match verb_named(footer, c) {
            Some(VerbId::NewAgent) => Some(FlowOf::NewAgent),
            Some(VerbId::PickAgent) => Some(FlowOf::PickAgent),
            Some(VerbId::NewShell) => Some(shell_flow()),
            Some(VerbId::Restart) => if rows > 0 {
                Some(FlowOf::RestartProcess)
            } else {
                None
            },
            Some(VerbId::Kill) => if rows > 0 {
                Some(FlowOf::KillSelected)
            } else {
                None
            },
            _ => None,
        },
        _ => None,
    }
}

/// Does what a key does on a rail.
pub fn handle_rail_key(k: KeyEvent, focus: Focus, rows: usize, pinned: bool, verbs: &RailVerbs) -> (r:
    Option<Flow>)
    ensures
        opt_flow(r) == rail_flow(k, focus, rows, pinned, *verbs),
{
    let footer = match focus {
        Focus::Agents => if pinned {
            &verbs.agents_pinned
        } else {
            &verbs.agents
        },
        Focus::Processes => &verbs.procs,
        _ => {
            return None;
        },
    };
    match k.code {
        KeyCode::Char(c) => match find_verb(footer, c) {
            Some(VerbId::NewAgent) => Some(Flow::NewAgent),
            Some(VerbId::PickAgent) => Some(Flow::PickAgent),
            Some(VerbId::NewShell) => Some(new_shell()),
            Some(VerbId::Restart) => if rows > 0 {
                Some(Flow::RestartProcess)
            } else {
                None
            },
            Some(VerbId::Kill) => if rows > 0 {
                Some(Flow::KillSelected)
            } else {
                None
            },
            _ => None,
        },
        _ => None,
    }
}

/// What a key does on the fleet: `x` ends the session the cursor is on, and
/// only while the fleet has the keyboard.
pub open spec fn fleet_flow(k: KeyEvent, focus: Focus, rows: usize) -> Option<FlowModel> {
    if focus is AllAgents && k.code == KeyCode::Char('x') && rows > 0 {
        Some(FlowOf::KillSelected)
    } else {
        None
    }
}

/// Does what a key does on the fleet.
pub fn handle_fleet_key(k: KeyEvent, view: &Bench, rows: usize) -> (r: Option<Flow>)
    ensures
        opt_flow(r) == fleet_flow(k, view@.focus, rows),
{
    if view.focus != Focus::AllAgents {
        return None;
    }
    match k.code {
        KeyCode::Char('x') => if rows > 0 {
            Some(Flow::KillSelected)
        } else {
            None
        },
        _ => None,
    }
}

/// The usage page: how many rows it has, and its cursor.
#[derive(Clone, Copy, Debug, PartialEq, Eq, Structural)]
pub struct Usage {
    pub rows: usize,
    pub sel: usize,
    pub loaded: bool,
}

/// What a key does on the usage page.
pub open spec fn usage_key(k: KeyEvent, u: Usage) -> (Usage, Option<FlowModel>) {
    let go = |by: int|
        (
            Usage { sel: stepped(u.sel as int, by, u.rows as int) as usize, ..u },
            Some(FlowOf::<Seq<char>>::Continue),
        );
    match k.code {
        KeyCode::Down => go(1),
        KeyCode::Up => go(-1),
        KeyCode::Char(c) => if c == 'j' {
            go(1)
        } else if c == 'k' {
            go(-1)
        } else if c == 'r' {
            (u, Some(FlowOf::RefreshUsage))
        } else {
            (u, None)
        },
        _ => (u, None),
    }
}

/// Does what a key does on the usage page.
pub fn handle_usage_key(k: KeyEvent, usage: &mut Usage) -> (r: Option<Flow>)
    ensures
        (*final(usage), opt_flow(r)) == usage_key(k, *old(usage)),
{
    match k.code {
        KeyCode::Char('j') | KeyCode::Down => {
            usage.sel = step(usage.sel, 1, usage.rows);
            Some(Flow::Continue)
        },
        KeyCode::Char('k') | KeyCode::Up => {
            usage.sel = step(usage.sel, -1, usage.rows);
            Some(Flow::Continue)
        },
        KeyCode::Char('r') => Some(Flow::RefreshUsage),
        _ => None,
    }
}

/// The usage page once it has been read: its cursor stays on a row.
pub fn usage_loaded(usage: &mut Usage, rows: usize)
    ensures
        *final(usage) == (Usage {
            rows,
            sel: stepped(old(usage).sel as int, 0, rows as int) as usize,
            loaded: true,
        }),
{
    usage.rows = rows;
    usage.loaded = true;
    usage.sel = step(usage.sel, 0, rows);
}

/// The help page: its topic, how far it is scrolled, and the page it was
/// opened from.
#[derive(Clone, Copy, Debug, PartialEq, Eq, Structural)]
pub struct Help {
    pub topic: usize,
    pub scroll: usize,
    pub ret: Page,
}

/// A place in a text that is scrolled by `delta` lines, between its top and
/// the last line it may be scrolled to.
pub open spec fn scrolled(at: int, delta: int, max: int) -> int {
    if at + delta < 0 {
        0
    } else if at + delta > max {
        max
    } else {
        at + delta
    }
}

/// Scrolls a text by some lines, between its top and `max`.
pub fn scroll_by(at: usize, delta: isize, max: usize) -> (r: usize)
    ensures
        r == scrolled(at as int, delta as int, max as int),
{
    if delta < 0 {
        let back: usize = (-(delta + 1)) as usize;
        if at <= back {
            0
        } else {
            let next: usize = at - back - 1;
            if next < max {
                next
            } else {
                max
            }
        }
    } else {
        let on: usize = delta as usize;
        if at >= max || on > max - at {
            max
        } else {
            at + on
        }
    }
}

/// How many lines a page key moves the help: a screen less two, and at least
/// one.
pub open spec fn help_page(height: u16) -> int {
    if height > 2 {
        height - 2
    } else {
        1
    }
}

/// What a key does on the help page, of `topics` topics, where the topic that
/// is shown can be scrolled to `max` and `height` lines of it are on screen.
/// A new topic is read from its top.
pub open spec fn help_key(k: KeyEvent, h: Help, topics: usize, max: usize, height: u16) -> (
    Help,
    Option<FlowModel>,
) {
    let heard = Some(FlowOf::<Seq<char>>::Continue);
    let on = |d: int|
        (Help { scroll: scrolled(h.scroll as int, d, max as int) as usize, ..h }, heard);
    // Towards the top nothing but the top stops it.
    let back = |d: int|
        (
            Help {
                scroll: if h.scroll > d {
                    (h.scroll - d) as usize
                } else {
                    0
                },
                ..h
            },
            heard,
        );
    let go = |t: int| (Help { topic: (t % topics as int) as usize, scroll: 0, ..h }, heard);
    match k.code {
        KeyCode::Down => on(1),
        KeyCode::Up => back(1),
        KeyCode::PageDown => on(help_page(height)),
        KeyCode::PageUp => back(help_page(height)),
        KeyCode::Home => (Help { scroll: 0, ..h }, heard),
        KeyCode::End => (Help { scroll: max, ..h }, heard),
        KeyCode::Tab | KeyCode::Right => go(h.topic + 1),
        KeyCode::BackTab | KeyCode::Left => go(h.topic + topics - 1),
        KeyCode::Esc => (h, Some(FlowOf::CloseHelp)),
        KeyCode::Char(c) => if c == 'j' {
            on(1)
        } else if c == 'k' {
            back(1)
        } else if c == ' ' || c == 'f' {
            on(help_page(height))
        } else if c == 'b' {
            back(help_page(height))
        } else if c == 'g' {
            (Help { scroll: 0, ..h }, heard)
        } else if c == 'G' {
            (Help { scroll: max, ..h }, heard)
        } else if c == 'n' || c == 'l' {
            go(h.topic + 1)
        } else if c == 'p' || c == 'h' {
            go(h.topic + topics - 1)
        } else if c == 'q' {
            (h, Some(FlowOf::CloseHelp))
        } else {
            (h, None)
        },
        _ => (h, None),
    }
}

/// Does what a key does on the help page.
pub fn handle_help_key(k: KeyEvent, help: &mut Help, topics: usize, max: usize, height: u16) -> (r:
    Option<Flow>)
    requires
        topics > 0,
        old(help).topic + topics < usize::MAX,
    ensures
        (*final(help), opt_flow(r)) == help_key(k, *old(help), topics, max, height),
{
    let screen: isize = if height > 2 {
        height as isize - 2
    } else {
        1
    };
    match k.code {
        KeyCode::Down | KeyCode::Char('j') => {
            help.scroll = scroll_by(help.scroll, 1, max);
        },
        KeyCode::Up | KeyCode::Char('k') => {
            help.scroll = if help.scroll > 1 {
                help.scroll - 1
            } else {
                0
            };
        },
        KeyCode::PageDown | KeyCode::Char(' ') | KeyCode::Char('f') => {
            help.scroll = scroll_by(help.scroll, screen, max);
        },
        KeyCode::PageUp | KeyCode::Char('b') => {
            help.scroll = if help.scroll > screen as usize {
                help.scroll - screen as usize
            } else {
                0
            };
        },
        KeyCode::Home | KeyCode::Char('g') => {
            help.scroll = 0;
        },
        KeyCode::End | KeyCode::Char('G') => {
            help.scroll = max;
        },
        KeyCode::Tab | KeyCode::Char('n') | KeyCode::Right | KeyCode::Char('l') => {
            help.topic = (help.topic + 1) % topics;
            help.scroll = 0;
        },
        KeyCode::BackTab | KeyCode::Char('p') | KeyCode::Left | KeyCode::Char('h') => {
            help.topic = (help.topic + topics - 1) % topics;
            help.scroll = 0;
        },
        KeyCode::Esc | KeyCode::Char('q') => {
            return Some(Flow::CloseHelp);
        },
        _ => {
            return None;
        },
    }
    Some(Flow::Continue)
}

/// A help page that is scrolled within its text stays within it, whatever key
/// comes that keeps the topic, and a new topic opens at its top.
pub proof fn the_help_page_stops_at_its_ends(
    k: KeyEvent,
    h: Help,
    topics: usize,
    max: usize,
    height: u16,
)
    requires
        h.scroll <= max,
    ensures
        help_key(k, h, topics, max, height).0.topic == h.topic ==> help_key(
            k,
            h,
            topics,
            max,
            height,
        ).0.scroll <= max,
        help_key(k, h, topics, max, height).0.topic != h.topic ==> help_key(
            k,
            h,
            topics,
            max,
            height,
        ).0.scroll == 0,
        help_key(k, h, topics, max, height).0.ret == h.ret,
{
}

/// Opens a topic of the help that was clicked. `topic` is the one under the
/// pointer, where the pointer is on the list of topics and on one of them.
pub fn help_click(help: &mut Help, topic: Option<usize>) -> (r: Option<Flow>)
    ensures
        match topic {
            Some(t) => *final(help) == (Help { topic: t, scroll: 0, ..*old(help) }) && opt_flow(r)
                == Some(FlowOf::<Seq<char>>::Continue),
            None => *final(help) == *old(help) && r is None,
        },
{
    match topic {
        Some(t) => {
            help.topic = t;
            help.scroll = 0;
            Some(Flow::Continue)
        },
        None => None,
    }
}

/// While no file is being edited, Enter goes into the directory under the
/// cursor, opens the file under it, and does neither where there is no row.
/// The view and the tree stay as they were.
pub proof fn enter_lists_a_directory_and_opens_a_file(k: KeyEvent, v: BenchModel, f: FilesModel)
    requires
        k.code is Enter,
        f.open matches Some(e) ==> e.mode is Read,
    ensures
        files_key(k, v, f).0 == v,
        files_key(k, v, f).1 == f,
        f.sel < f.entries.len() && f.entries[f.sel as int].is_dir ==> files_key(k, v, f).2 == Some(
            FlowOf::ListDir(f.entries[f.sel as int].path),
        ),
        f.sel < f.entries.len() && !f.entries[f.sel as int].is_dir ==> files_key(k, v, f).2 == Some(
            FlowOf::OpenFile(f.entries[f.sel as int].path),
        ),
        f.sel >= f.entries.len() ==> files_key(k, v, f).2 is None,
{
}

/// While no file is being edited and the keyboard is on the tree, `j` and the
/// arrow move its cursor one row down, `k` and the other arrow one up, and
/// each stops at its end. Nothing else changes.
pub proof fn the_cursor_of_a_tree_moves_one_row(k: KeyEvent, v: BenchModel, f: FilesModel)
    requires
        f.open matches Some(e) ==> e.mode is Read,
        v.focus !is Stage,
        f.sel < f.entries.len(),
        f.entries.len() <= usize::MAX,
    ensures
        k.code is Down || k.code == KeyCode::Char('j') ==> files_key(k, v, f) == (
            v,
            FilesOf {
                sel: if f.sel + 1 < f.entries.len() {
                    (f.sel + 1) as usize
                } else {
                    f.sel
                },
                ..f
            },
            Some(FlowOf::<Seq<char>>::Continue),
        ),
        k.code is Up || k.code == KeyCode::Char('k') ==> files_key(k, v, f) == (
            v,
            FilesOf {
                sel: if f.sel > 0 {
                    (f.sel - 1) as usize
                } else {
                    0
                },
                ..f
            },
            Some(FlowOf::<Seq<char>>::Continue),
        ),
{
}

/// With the keyboard on the stage the same keys scroll the file that is open,
/// one line down or one up, and are not taken where none is.
pub proof fn an_open_file_is_scrolled_a_line_at_a_time(
    k: KeyEvent,
    v: BenchModel,
    f: FilesModel,
    e: EditorModel,
)
    requires
        v.focus is Stage,
        e.mode is Read,
    ensures
        ({
            let r = files_key(k, v, FilesOf { open: Some(e), ..f });
            let shows = |d: isize|
                r.0 == v && r.1.open == Some(
                    EditorOf { steps: e.steps.push(EditorStepOf::Scroll(d)), ..e },
                ) && r.1 == (FilesOf { open: r.1.open, ..f }) && r.2 == Some(
                    FlowOf::<Seq<char>>::Continue,
                );
            &&& k.code is Down || k.code == KeyCode::Char('j') ==> shows(1)
            &&& k.code is Up || k.code == KeyCode::Char('k') ==> shows((-1) as isize)
        }),
        k.code is Down || k.code is Up || k.code == KeyCode::Char('j') || k.code == KeyCode::Char(
            'k',
        ) ==> files_key(k, v, FilesOf { open: None, ..f }) == (
            v,
            FilesOf { open: None, ..f },
            None::<FlowModel>,
        ),
{
}

/// Backspace goes to the directory above, where there is one, `e` and `i`
/// begin to edit the file that is open, and `x` asks about the file under the
/// cursor by its own path.
pub proof fn a_tree_goes_up_edits_and_asks(k: KeyEvent, v: BenchModel, f: FilesModel)
    requires
        f.open matches Some(e) ==> e.mode is Read,
    ensures
        k.code is Backspace ==> files_key(k, v, f).0 == v && files_key(k, v, f).1 == f && (match (
            dir_above(f.dir),
            files_key(k, v, f).2,
        ) {
            (Some(up), Some(FlowOf::ListDir(to))) => to == up,
            (None, None) => true,
            _ => false,
        }),
        k.code == KeyCode::Char('e') || k.code == KeyCode::Char('i') ==> (match f.open {
            Some(e) => {
                let r = files_key(k, v, f);
                &&& r.0 == v
                &&& r.1.open matches Some(now) && now.mode is Edit && now == (EditorOf {
                    mode: now.mode,
                    ..e
                })
                &&& r.1 == (FilesOf { open: r.1.open, ..f })
                &&& r.2 == Some(FlowOf::<Seq<char>>::Continue)
            },
            None => files_key(k, v, f) == (v, f, None::<FlowModel>),
        }),
        k.code == KeyCode::Char('x') && f.sel < f.entries.len() && !f.entries[f.sel as int].is_dir
            ==> {
            let r = files_key(k, v, f);
            let path = f.entries[f.sel as int].path;
            &&& r.0.overlay matches Some(crate::types::OverlayOf::Confirm(c)) && !c.yes && c.kind
                == ConfirmKindOf::DeleteFile { path } && c.title == "DELETE"@ && c.header
                == "delete "@ + path + " — this cannot be undone"@
            &&& r.0 == (BenchOf { overlay: r.0.overlay, ..v })
            &&& r.1 == f
            &&& r.2 == Some(FlowOf::<Seq<char>>::Continue)
        },
        k.code == KeyCode::Char('x') && f.sel < f.entries.len() && f.entries[f.sel as int].is_dir
            ==> files_key(k, v, f) == (v, f, Some(FlowOf::<Seq<char>>::Continue)),
{
}

/// Escape and `q` leave the tree for the agents, unless the file that is open
/// holds something unsaved and this is the first attempt. Both are taken
/// either way.
pub proof fn a_tree_is_left_for_the_agents(k: KeyEvent, v: BenchModel, f: FilesModel)
    requires
        k.code is Esc || k.code == KeyCode::Char('q'),
        f.open matches Some(e) ==> e.mode is Read,
    ensures
        files_key(k, v, f).2 == Some(FlowOf::<Seq<char>>::Continue),
        files_key(k, v, f).0 == (BenchOf { page: files_key(k, v, f).0.page, ..v }),
        files_key(k, v, f).0.page == (if f.open matches Some(e) && e.unsaved && !e.armed {
            v.page
        } else {
            Page::Agents
        }),
        f.open matches Some(e) && e.unsaved ==> (files_key(k, v, f).1.open matches Some(now)
            && now.armed && now.unsaved && now.path == f.open->0.path),
{
}

/// While a file is edited control and `s` saves it, escape goes back to
/// reading, and every other key is the text's, as it was pressed. The view and
/// the rest of the tree stay as they were.
pub proof fn keys_are_the_texts_while_it_is_edited(
    k: KeyEvent,
    v: BenchModel,
    f: FilesModel,
    e: EditorModel,
)
    requires
        f.open == Some(e),
        e.mode is Edit,
    ensures
        files_key(k, v, f).0 == v,
        files_key(k, v, f).1 == (FilesOf { open: files_key(k, v, f).1.open, ..f }),
        k.ctrl && k.code == KeyCode::Char('s') ==> files_key(k, v, f).1.open == Some(e)
            && files_key(k, v, f).2 == Some(FlowOf::<Seq<char>>::SaveFile),
        k.code is Esc ==> files_key(k, v, f).2 == Some(FlowOf::<Seq<char>>::Continue) && files_key(
            k,
            v,
            f,
        ).1.open == Some(EditorOf { mode: EditMode::Read, ..e }),
        !(k.ctrl && k.code == KeyCode::Char('s')) && k.code !is Esc ==> files_key(k, v, f).2
            == Some(FlowOf::<Seq<char>>::Continue) && files_key(k, v, f).1.open == Some(
            EditorOf { steps: e.steps.push(EditorStepOf::Input(k)), ..e },
        ),
{
}

/// A directory that is shown has its cursor on the first row. The way back up
/// comes first, where there is one, and the entries follow as they were
/// listed. The file that is open stays open.
pub proof fn a_directory_is_shown_with_the_way_up_first(
    f: FilesModel,
    entries: Seq<FileEntryModel>,
    dir: Seq<char>,
)
    ensures
        tree_showing(f, entries, dir).dir == dir,
        tree_showing(f, entries, dir).sel == 0,
        tree_showing(f, entries, dir).open == f.open,
        dir_above(dir) matches Some(up) ==> {
            let rows = tree_showing(f, entries, dir).entries;
            &&& rows.len() == entries.len() + 1
            &&& rows[0].name == ".."@
            &&& rows[0].path == up
            &&& rows[0].is_dir
            &&& forall|i: int| 0 <= i < entries.len() ==> rows[i + 1] == #[trigger] entries[i]
        },
        dir_above(dir) is None ==> tree_showing(f, entries, dir).entries == entries,
{
}

/// A file opens to be read, with nothing unsaved; changing its text takes back
/// what was agreed to be thrown away, and saving it leaves nothing unsaved.
pub proof fn a_file_opens_to_be_read(path: Seq<char>, e: EditorModel)
    ensures
        opened(path).path == path,
        opened(path).mode is Read,
        !opened(path).unsaved,
        closes(opened(path)),
        opened(path).steps.len() == 0,
        opened(path).notice is None,
        touched(e).unsaved && !touched(e).armed && touched(e).path == e.path && touched(e).mode
            == e.mode,
        !saved(e).unsaved && !saved(e).armed && saved(e).path == e.path && saved(e).mode == e.mode,
        after_close(e).unsaved == e.unsaved && after_close(e).path == e.path,
        blank_files().open is None && blank_files().sel == 0 && blank_files().entries.len() == 0,
{
}

/// What is done to one container names it; what is done to a compose project
/// is done where the project is, or by its name where that is not known; and
/// what is done to other containers names them all. Only the logs of a project
/// are asked for in colour.
pub proof fn a_container_command_names_what_it_acts_on(
    stack: Stack,
    name: Seq<char>,
    verb: Seq<char>,
)
    ensures
        docker_line(stack, Some(name), verb) == "docker "@ + verb + " "@ + quoted(name),
        stack.project@.len() == 0 ==> docker_line(stack, None, verb) == "docker "@ + verb + " "@
            + quoted_names(stack.containers@),
        stack.project@.len() > 0 && stack.workdir@.len() > 0 ==> docker_line(
            stack,
            None,
            "restart"@,
        ) == "cd "@ + quoted(stack.workdir@) + " && docker compose "@ + "restart"@,
        stack.project@.len() > 0 && stack.workdir@.len() == 0 ==> docker_line(
            stack,
            None,
            "restart"@,
        ) == "docker compose -p "@ + quoted(stack.project@) + " "@ + "restart"@,
        stack.project@.len() > 0 && stack.workdir@.len() > 0 ==> docker_line(stack, None, "stop"@)
            == "cd "@ + quoted(stack.workdir@) + " && docker compose "@ + "stop"@,
        stack.project@.len() > 0 && stack.workdir@.len() == 0 ==> docker_line(stack, None, "stop"@)
            == "docker compose -p "@ + quoted(stack.project@) + " "@ + "stop"@,
        stack.project@.len() > 0 && stack.workdir@.len() > 0 ==> docker_line(
            stack,
            None,
            "logs -f --tail 200"@,
        ) == "cd "@ + quoted(stack.workdir@) + " && docker compose "@ + ("--ansi always "@
            + "logs -f --tail 200"@),
        stack.project@.len() > 0 && stack.workdir@.len() == 0 ==> docker_line(
            stack,
            None,
            "logs -f --tail 200"@,
        ) == "docker compose -p "@ + quoted(stack.project@) + " "@ + ("--ansi always "@
            + "logs -f --tail 200"@),
{
    reveal_strlit("restart");
    reveal_strlit("stop");
    reveal_strlit("logs -f --tail 200");
}

/// Names in a command are words of their own, in order, with a space between
/// each and the next.
pub proof fn names_are_words_of_their_own(names: Seq<String>, last: String)
    ensures
        quoted_names(Seq::empty()) == Seq::<char>::empty(),
        quoted_names(seq![last]) == quoted(last@),
        names.len() > 0 ==> quoted_names(names.push(last)) == quoted_names(names) + " "@ + quoted(
            last@,
        ),
{
    assert(names.push(last).drop_last() =~= names);
}

/// On the container page Enter follows the logs of the row under the cursor,
/// `r` restarts it and `x` stops it: the container the row stands for, or its
/// whole stack. Each does it in a process named for the row, and the logs go
/// into the column of the page while the others leave the stage alone.
pub proof fn a_key_acts_on_the_row_under_the_cursor(
    k: KeyEvent,
    v: BenchModel,
    d: Docker,
    stacks: Seq<Stack>,
    rows: Seq<DockerRow>,
    stack: usize,
    name: String,
)
    requires
        d.sel < rows.len(),
    ensures
        ({
            let r = docker_key(k, v, d, stacks, rows);
            let row = rows[d.sel as int];
            let acts = |word: Seq<char>, verb: Seq<char>, label: Seq<char>, on: Option<Seq<char>>, at:
                int, then: SpawnedOf<Seq<char>>|
                r == (
                    v,
                    d,
                    Some(
                        FlowOf::RunProcess {
                            name: word + " "@ + label,
                            command: docker_line(stacks[at], on, verb),
                            then,
                        },
                    ),
                );
            let label = stacks[stack as int].label@;
            &&& row == DockerRow::Stack(stack) ==> {
                &&& k.code is Enter ==> acts(
                    "logs"@,
                    "logs -f --tail 200"@,
                    label,
                    None,
                    stack as int,
                    SpawnedOf::Follow(label),
                )
                &&& k.code == KeyCode::Char('r') ==> acts(
                    "restart"@,
                    "restart"@,
                    label,
                    None,
                    stack as int,
                    SpawnedOf::Rail,
                )
                &&& k.code == KeyCode::Char('x') ==> acts(
                    "stop"@,
                    "stop"@,
                    label,
                    None,
                    stack as int,
                    SpawnedOf::Rail,
                )
            }
            &&& row == (DockerRow::Container { stack, name }) ==> {
                &&& k.code is Enter ==> acts(
                    "logs"@,
                    "logs -f --tail 200"@,
                    name@,
                    Some(name@),
                    stack as int,
                    SpawnedOf::Follow(name@),
                )
                &&& k.code == KeyCode::Char('r') ==> acts(
                    "restart"@,
                    "restart"@,
                    name@,
                    Some(name@),
                    stack as int,
                    SpawnedOf::Rail,
                )
                &&& k.code == KeyCode::Char('x') ==> acts(
                    "stop"@,
                    "stop"@,
                    name@,
                    Some(name@),
                    stack as int,
                    SpawnedOf::Rail,
                )
            }
        }),
{
    reveal_strlit("logs ");
    reveal_strlit("logs");
    reveal_strlit(" ");
    assert("logs "@ =~= "logs"@ + " "@);
}

/// `s` opens a shell on the stage in the container under the cursor, or in the
/// only one of the stack under it. In a stack of several it is not taken.
pub proof fn a_shell_is_opened_in_one_container(
    k: KeyEvent,
    v: BenchModel,
    d: Docker,
    stacks: Seq<Stack>,
    rows: Seq<DockerRow>,
    stack: usize,
    name: String,
)
    requires
        k.code == KeyCode::Char('s'),
        d.sel < rows.len(),
    ensures
        ({
            let r = docker_key(k, v, d, stacks, rows);
            let row = rows[d.sel as int];
            let opens = |label: Seq<char>, on: Seq<char>|
                r == (
                    v,
                    d,
                    Some(
                        FlowOf::RunProcess {
                            name: label,
                            command: "docker exec -it "@ + quoted(on)
                                + " sh -lc 'exec ${SHELL:-sh}'"@,
                            then: SpawnedOf::Stage,
                        },
                    ),
                );
            let held = stacks[stack as int].containers@;
            &&& row == (DockerRow::Container { stack, name }) ==> opens(name@, name@)
            &&& row == DockerRow::Stack(stack) && held.len() == 1 ==> opens(
                stacks[stack as int].label@,
                held[0]@,
            )
            &&& row == DockerRow::Stack(stack) && held.len() != 1 ==> r == (v, d, None::<FlowModel>)
        }),
{
}

/// The cursor of the container page moves one row at a time and stops at the
/// ends; escape and `q` leave the page for the agents.
pub proof fn the_container_page_is_walked_and_left(
    k: KeyEvent,
    v: BenchModel,
    d: Docker,
    stacks: Seq<Stack>,
    rows: Seq<DockerRow>,
)
    requires
        d.sel < rows.len(),
        rows.len() <= usize::MAX,
    ensures
        ({
            let r = docker_key(k, v, d, stacks, rows);
            let heard = Some(FlowOf::<Seq<char>>::Continue);
            &&& k.code is Down || k.code == KeyCode::Char('j') ==> r.0 == v && r.2 == heard
                && r.1.logs == d.logs && r.1.sel == (if d.sel + 1 < rows.len() {
                d.sel + 1
            } else {
                d.sel as int
            })
            &&& k.code is Up || k.code == KeyCode::Char('k') ==> r.0 == v && r.2 == heard
                && r.1.logs == d.logs && r.1.sel == (if d.sel > 0 {
                d.sel - 1
            } else {
                0
            })
            &&& k.code is Esc || k.code == KeyCode::Char('q') ==> r.0 == (BenchOf {
                page: Page::Agents,
                ..v
            }) && r.1 == d && r.2 == heard
        }),
{
}

/// A key on a rail does what the first verb under it in the footer says: the
/// agents' footer on the agents, the processes' on the processes, and none
/// elsewhere. Restarting and killing need a row.
pub proof fn a_rail_key_does_what_its_footer_says(
    k: KeyEvent,
    c: char,
    rows: usize,
    pinned: bool,
    verbs: RailVerbs,
    focus: Focus,
)
    requires
        k.code == KeyCode::Char(c),
    ensures
        focus !is Agents && focus !is Processes ==> rail_flow(k, focus, rows, pinned, verbs) is None,
        ({
            let footer = if focus is Processes {
                verbs.procs@
            } else if pinned {
                verbs.agents_pinned@
            } else {
                verbs.agents@
            };
            let r = rail_flow(k, focus, rows, pinned, verbs);
            focus is Agents || focus is Processes ==> (match verb_named(footer, c) {
                Some(VerbId::NewAgent) => r == Some(FlowOf::<Seq<char>>::NewAgent),
                Some(VerbId::PickAgent) => r == Some(FlowOf::<Seq<char>>::PickAgent),
                Some(VerbId::NewShell) => r == Some(
                    FlowOf::RunProcess {
                        name: "shell"@,
                        command: Seq::empty(),
                        then: SpawnedOf::Stage,
                    },
                ),
                Some(VerbId::Restart) => if rows > 0 {
                    r == Some(FlowOf::<Seq<char>>::RestartProcess)
                } else {
                    r is None
                },
                Some(VerbId::Kill) => if rows > 0 {
                    r == Some(FlowOf::<Seq<char>>::KillSelected)
                } else {
                    r is None
                },
                _ => r is None,
            })
        }),
{
}

/// On the fleet `x` kills what the cursor is on, and nothing else is taken:
/// not where the fleet is empty, and not where the keyboard is elsewhere.
pub proof fn the_fleet_takes_only_the_killing_key(k: KeyEvent, focus: Focus, rows: usize)
    ensures
        fleet_flow(k, focus, rows) is Some <==> focus is AllAgents && k.code == KeyCode::Char('x')
            && rows > 0,
        fleet_flow(k, focus, rows) matches Some(f) ==> f == FlowOf::<Seq<char>>::KillSelected,
{
}

/// On the usage page the cursor moves one row at a time and stops at the ends,
/// and `r` reads the page again.
pub proof fn the_usage_page_is_walked_and_read_again(k: KeyEvent, u: Usage)
    requires
        u.sel < u.rows,
    ensures
        k.code is Down || k.code == KeyCode::Char('j') ==> usage_key(k, u) == (
            Usage {
                sel: if u.sel + 1 < u.rows {
                    (u.sel + 1) as usize
                } else {
                    u.sel
                },
                ..u
            },
            Some(FlowOf::<Seq<char>>::Continue),
        ),
        k.code is Up || k.code == KeyCode::Char('k') ==> usage_key(k, u) == (
            Usage {
                sel: if u.sel > 0 {
                    (u.sel - 1) as usize
                } else {
                    0
                },
                ..u
            },
            Some(FlowOf::<Seq<char>>::Continue),
        ),
        k.code == KeyCode::Char('r') ==> usage_key(k, u) == (
            u,
            Some(FlowOf::<Seq<char>>::RefreshUsage),
        ),
{
}

/// The help is scrolled a line by the arrows, a screen less two lines by the
/// page keys, and to either end by `g` and `G`: never above its top, nor below
/// where it may be scrolled to. The topic and the way back stay.
pub proof fn the_help_is_scrolled_by_lines_and_screens(
    k: KeyEvent,
    h: Help,
    topics: usize,
    max: usize,
    height: u16,
)
    requires
        h.scroll <= max,
    ensures
        ({
            let r = help_key(k, h, topics, max, height);
            let screen = if height > 2 {
                height - 2
            } else {
                1
            };
            let shows = |at: int|
                r.0 == (Help { scroll: r.0.scroll, ..h }) && r.0.scroll == at && r.1 == Some(
                    FlowOf::<Seq<char>>::Continue,
                );
            let down = |n: int|
                shows(
                    if h.scroll + n <= max {
                        h.scroll + n
                    } else {
                        max as int
                    },
                );
            let up = |n: int|
                shows(
                    if h.scroll >= n {
                        h.scroll - n
                    } else {
                        0
                    },
                );
            &&& k.code is Down || k.code == KeyCode::Char('j') ==> down(1)
            &&& k.code is Up || k.code == KeyCode::Char('k') ==> up(1)
            &&& k.code is PageDown || k.code == KeyCode::Char(' ') || k.code == KeyCode::Char('f')
                ==> down(screen)
            &&& k.code is PageUp || k.code == KeyCode::Char('b') ==> up(screen)
            &&& k.code is Home || k.code == KeyCode::Char('g') ==> shows(0)
            &&& k.code is End || k.code == KeyCode::Char('G') ==> shows(max as int)
            &&& k.code is Esc || k.code == KeyCode::Char('q') ==> r == (
                h,
                Some(FlowOf::<Seq<char>>::CloseHelp),
            )
        }),
{
}

/// The topics of the help are walked on and back around the list: each is
/// read from its top, and going on and then back comes to the same topic.
pub proof fn the_topics_of_the_help_go_around(
    on: KeyEvent,
    back: KeyEvent,
    h: Help,
    topics: usize,
    max: usize,
    height: u16,
)
    requires
        h.topic < topics,
        on.code is Tab || on.code is Right || on.code == KeyCode::Char('n') || on.code
            == KeyCode::Char('l'),
        back.code is BackTab || back.code is Left || back.code == KeyCode::Char('p') || back.code
            == KeyCode::Char('h'),
    ensures
        help_key(on, h, topics, max, height).0 == (Help {
            topic: if h.topic + 1 < topics {
                (h.topic + 1) as usize
            } else {
                0
            },
            scroll: 0,
            ..h
        }),
        help_key(back, h, topics, max, height).0 == (Help {
            topic: if h.topic > 0 {
                (h.topic - 1) as usize
            } else {
                (topics - 1) as usize
            },
            scroll: 0,
            ..h
        }),
        help_key(
            back,
            help_key(on, h, topics, max, height).0,
            topics,
            max,
            height,
        ).0.topic == h.topic,
        help_key(on, h, topics, max, height).1 == Some(FlowOf::<Seq<char>>::Continue),
        help_key(back, h, topics, max, height).1 == Some(FlowOf::<Seq<char>>::Continue),
{
    let n = topics as int;
    let next = help_key(on, h, topics, max, height).0.topic as int;
    if h.topic + 1 < topics {
        vstd::arithmetic::div_mod::lemma_small_mod((h.topic + 1) as nat, n as nat);
    } else {
        vstd::arithmetic::div_mod::lemma_mod_self_0(n);
    }
    if h.topic > 0 {
        vstd::arithmetic::div_mod::lemma_small_mod((h.topic - 1) as nat, n as nat);
        vstd::arithmetic::div_mod::lemma_mod_add_multiples_vanish(h.topic - 1, n);
    } else {
        vstd::arithmetic::div_mod::lemma_small_mod((n - 1) as nat, n as nat);
    }
    if next > 0 {
        vstd::arithmetic::div_mod::lemma_small_mod((next - 1) as nat, n as nat);
        vstd::arithmetic::div_mod::lemma_mod_add_multiples_vanish(next - 1, n);
    } else {
        vstd::arithmetic::div_mod::lemma_small_mod((n - 1) as nat, n as nat);
    }
}

/// A place in a text that is scrolled is moved by just as many lines, short of
/// its ends.
pub proof fn scrolling_moves_by_its_lines(at: int, delta: int, max: int)
    requires
        0 <= at <= max,
    ensures
        0 <= scrolled(at, delta, max) <= max,
        0 <= at + delta <= max ==> scrolled(at, delta, max) == at + delta,
        at + delta < 0 ==> scrolled(at, delta, max) == 0,
        at + delta > max ==> scrolled(at, delta, max) == max,
{
}

} // verus!
