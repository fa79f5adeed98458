//! The boxes over the workbench, and what the keyboard and the mouse do to
//! them: lists, questions, prompts and the search.
use vstd::prelude::*;

use crate::bench::{step, stepped};
use crate::text::{cat, cat3, chars_of, same, string_of, texts, trim, trimmed};
use crate::types::{
    hits_model, Bench, BenchModel, BenchOf, ConfirmKind, ConfirmKindOf, ConfirmOverlayOf, Flow,
    FlowModel, FlowOf, GitAction, GitActionOf, KeyCode, KeyEvent, ListKindOf, ListOverlayModel,
    ListOverlayOf, MouseEvent, MouseKind, Overlay, OverlayModel, OverlayOf, Page, PromptKind,
    PromptKindOf, PromptOverlayModel, PromptOverlayOf, SearchHit, SearchHitModel,
    SearchOverlayModel, SearchOverlayOf, SessionId,
};

verus! {

/// The text a row stands for, if the list has such a row.
pub open spec fn row_text(rows: Seq<Seq<char>>, sel: usize) -> Option<Seq<char>> {
    if sel < rows.len() {
        Some(rows[sel as int])
    } else {
        None
    }
}

/// What choosing the marked row of a list means: its value where the list has
/// values, and its label where it has none.
pub open spec fn chosen_of(l: ListOverlayModel) -> Option<Seq<char>> {
    match l.values {
        Some(values) => row_text(values, l.sel),
        None => row_text(l.items, l.sel),
    }
}

fn row_at(rows: &Vec<String>, sel: usize) -> (r: Option<&str>)
    ensures
        match r {
            Some(s) => row_text(texts(rows@), sel) == Some(s@),
            None => row_text(texts(rows@), sel) is None,
        },
{
    if sel < rows.len() {
        Some(rows[sel].as_str())
    } else {
        None
    }
}

impl ListOverlayOf<String, Vec<String>> {
    /// What choosing the marked row means to whoever acts on it.
    pub fn chosen(&self) -> (r: Option<&str>)
        ensures
            match r {
                Some(s) => chosen_of(self@) == Some(s@),
                None => chosen_of(self@) is None,
            },
    {
        match &self.values {
            Some(values) => row_at(values, self.sel),
            None => row_at(&self.items, self.sel),
        }
    }

    /// What the marked row says to whoever reads it.
    pub fn chosen_label(&self) -> (r: Option<&str>)
        ensures
            match r {
                Some(s) => row_text(self@.items, self@.sel) == Some(s@),
                None => row_text(self@.items, self@.sel) is None,
            },
    {
        row_at(&self.items, self.sel)
    }
}

/// A list with the mark moved by `delta` rows.
pub open spec fn list_moved(l: ListOverlayModel, delta: int) -> ListOverlayModel {
    ListOverlayOf { sel: stepped(l.sel as int, delta, l.items.len() as int) as usize, ..l }
}

/// A line of text and where the cursor stands in it.
pub struct Line {
    pub text: Seq<char>,
    pub at: int,
}

/// A line with its cursor inside it.
pub open spec fn line_of(text: Seq<char>, cursor: usize) -> Line {
    Line {
        text,
        at: if cursor <= text.len() {
            cursor as int
        } else {
            text.len() as int
        },
    }
}

/// A line with a character typed at its cursor.
pub open spec fn line_insert(l: Line, c: char) -> Line {
    Line { text: l.text.insert(l.at, c), at: l.at + 1 }
}

/// A line without the character before its cursor.
pub open spec fn line_backspace(l: Line) -> Line {
    if l.at > 0 {
        Line { text: l.text.remove(l.at - 1), at: l.at - 1 }
    } else {
        l
    }
}

/// A line without the character at its cursor.
pub open spec fn line_delete(l: Line) -> Line {
    if l.at < l.text.len() {
        Line { text: l.text.remove(l.at), at: l.at }
    } else {
        l
    }
}

/// What is typed into a line and taken back leaves the line as it was.
pub proof fn backspace_undoes_insert(l: Line, c: char)
    requires
        0 <= l.at <= l.text.len(),
    ensures
        line_backspace(line_insert(l, c)) == l,
{
    assert(l.text.insert(l.at, c).remove(l.at) =~= l.text);
}

/// Typing a text into an empty line, one character after the other, gives that
/// text.
pub open spec fn line_typed(l: Line, s: Seq<char>) -> Line
    decreases s.len(),
{
    if s.len() == 0 {
        l
    } else {
        line_insert(line_typed(l, s.drop_last()), s.last())
    }
}

/// A text typed into a line stands in it at the place where the cursor was.
pub proof fn typing_puts_the_text_at_the_cursor(l: Line, s: Seq<char>)
    requires
        0 <= l.at <= l.text.len(),
    ensures
        line_typed(l, s).text == l.text.take(l.at) + s + l.text.skip(l.at),
        line_typed(l, s).at == l.at + s.len(),
    decreases s.len(),
{
    if s.len() == 0 {
        assert(l.text.take(l.at) + s + l.text.skip(l.at) =~= l.text);
    } else {
        typing_puts_the_text_at_the_cursor(l, s.drop_last());
        assert(s.drop_last().push(s.last()) =~= s);
        assert(line_typed(l, s).text =~= l.text.take(l.at) + s + l.text.skip(l.at));
    }
}

fn cursor_in(v: &Vec<char>, cursor: usize) -> (at: usize)
    ensures
        at == line_of(v@, cursor).at,
{
    if cursor <= v.len() {
        cursor
    } else {
        v.len()
    }
}

fn insert_at(text: &mut String, cursor: &mut usize, c: char)
    ensures
        ({
            let l = line_insert(line_of(old(text)@, *old(cursor)), c);
            final(text)@ == l.text && *final(cursor) == l.at
        }),
{
    let mut v = chars_of(text.as_str());
    let at: usize = cursor_in(&v, *cursor);
    v.insert(at, c);
    let n: usize = v.len();
    assert(at < n);
    *text = string_of(&v);
    *cursor = at + 1;
}

fn backspace_at(text: &mut String, cursor: &mut usize)
    ensures
        ({
            let l = line_backspace(line_of(old(text)@, *old(cursor)));
            final(text)@ == l.text && *final(cursor) == l.at
        }),
{
    let mut v = chars_of(text.as_str());
    let at: usize = cursor_in(&v, *cursor);
    if at > 0 {
        v.remove(at - 1);
        *text = string_of(&v);
        *cursor = at - 1;
    } else {
        *cursor = at;
    }
}

fn delete_at(text: &mut String, cursor: &mut usize)
    ensures
        ({
            let l = line_delete(line_of(old(text)@, *old(cursor)));
            final(text)@ == l.text && *final(cursor) == l.at
        }),
{
    let mut v = chars_of(text.as_str());
    let at: usize = cursor_in(&v, *cursor);
    if at < v.len() {
        v.remove(at);
        *text = string_of(&v);
    }
    *cursor = at;
}

/// A prompt whose line has been edited.
pub open spec fn prompt_line(p: PromptOverlayModel, l: Line) -> PromptOverlayModel {
    PromptOverlayOf { text: l.text, cursor: l.at as usize, ..p }
}

/// What a key does to the line of a prompt.
pub open spec fn prompt_edited(k: KeyEvent, p: PromptOverlayModel) -> PromptOverlayModel {
    let l = line_of(p.text, p.cursor);
    match k.code {
        KeyCode::Backspace => prompt_line(p, line_backspace(l)),
        KeyCode::Delete => prompt_line(p, line_delete(l)),
        KeyCode::Left => PromptOverlayOf {
            cursor: if l.at > 0 {
                (l.at - 1) as usize
            } else {
                0
            },
            ..p
        },
        KeyCode::Right => PromptOverlayOf {
            cursor: if l.at < p.text.len() {
                (l.at + 1) as usize
            } else {
                l.at as usize
            },
            ..p
        },
        KeyCode::Home => PromptOverlayOf { cursor: 0, ..p },
        KeyCode::End => PromptOverlayOf { cursor: p.text.len() as usize, ..p },
        KeyCode::Char(c) => if !k.ctrl {
            prompt_line(p, line_insert(l, c))
        } else {
            p
        },
        _ => p,
    }
}

impl PromptOverlayOf<String> {
    /// Types a character at the cursor.
    pub fn insert(&mut self, c: char)
        ensures
            final(self)@ == prompt_line(
                old(self)@,
                line_insert(line_of(old(self)@.text, old(self)@.cursor), c),
            ),
            final(self).cursor == line_insert(
                line_of(old(self)@.text, old(self)@.cursor),
                c,
            ).at,
    {
        insert_at(&mut self.text, &mut self.cursor, c);
    }

    /// Does what a key does to a line of text.
    pub fn edit(&mut self, k: KeyEvent)
        ensures
            final(self)@ == prompt_edited(k, old(self)@),
    {
        match k.code {
            KeyCode::Backspace => backspace_at(&mut self.text, &mut self.cursor),
            KeyCode::Delete => delete_at(&mut self.text, &mut self.cursor),
            KeyCode::Left => {
                let v = chars_of(self.text.as_str());
                let at: usize = cursor_in(&v, self.cursor);
                self.cursor = if at > 0 {
                    at - 1
                } else {
                    0
                };
            },
            KeyCode::Right => {
                let v = chars_of(self.text.as_str());
                let at: usize = cursor_in(&v, self.cursor);
                self.cursor = if at < v.len() {
                    at + 1
                } else {
                    at
                };
            },
            KeyCode::Home => {
                self.cursor = 0;
            },
            KeyCode::End => {
                let v = chars_of(self.text.as_str());
                self.cursor = v.len();
            },
            KeyCode::Char(c) => {
                if !k.ctrl {
                    self.insert(c);
                }
            },
            _ => {},
        }
    }
}

/// A search whose query has been edited.
pub open spec fn search_line(f: SearchOverlayModel, l: Line) -> SearchOverlayModel {
    SearchOverlayOf { query: l.text, cursor: l.at as usize, ..f }
}

/// The hit that the mark of a search is on, if there is one.
pub open spec fn marked_hit(f: SearchOverlayModel) -> Option<SearchHitModel> {
    if f.sel < f.hits.len() {
        Some(f.hits[f.sel as int])
    } else {
        None
    }
}

impl SearchOverlayOf<String, Vec<SearchHit>> {
    /// Types a character into the query.
    pub fn insert(&mut self, c: char)
        ensures
            final(self)@ == search_line(
                old(self)@,
                line_insert(line_of(old(self)@.query, old(self)@.cursor), c),
            ),
            final(self).cursor == line_insert(
                line_of(old(self)@.query, old(self)@.cursor),
                c,
            ).at,
    {
        insert_at(&mut self.query, &mut self.cursor, c);
    }

    /// Takes back the character before the cursor.
    pub fn backspace(&mut self)
        ensures
            final(self)@ == search_line(
                old(self)@,
                line_backspace(line_of(old(self)@.query, old(self)@.cursor)),
            ),
    {
        backspace_at(&mut self.query, &mut self.cursor);
    }

    /// How a hit reads: where it is, and what stands there. A file found by its
    /// name has no line.
    pub fn label(hit: &SearchHit) -> (s: String)
        ensures
            s@ == (match hit@.line {
                Some(n) => hit@.path + ":"@ + crate::text::decimal(n as nat) + "  "@ + hit@.preview,
                None => hit@.path,
            }),
    {
        match hit.line {
            Some(n) => {
                let line = crate::text::to_decimal(n as u128);
                crate::text::cat5(
                    hit.path.as_str(),
                    ":",
                    line.as_str(),
                    "  ",
                    hit.preview.as_str(),
                )
            },
            None => hit.path.clone(),
        }
    }
}

/// What answering a question does: the box closes, and only a yes acts. A no
/// to an update is an answer too, about that version.
pub open spec fn answered(v: BenchModel) -> (BenchModel, FlowModel) {
    let closed = BenchOf { overlay: None, ..v };
    match v.overlay {
        Some(OverlayOf::Confirm(c)) => if !c.yes {
            (
                closed,
                match c.kind {
                    ConfirmKindOf::Update { version } => FlowOf::DeclineUpdate(version),
                    _ => FlowOf::Continue,
                },
            )
        } else {
            match c.kind {
                ConfirmKindOf::Discard { path } => (closed, FlowOf::Git(GitActionOf::Discard(path))),
                ConfirmKindOf::DeleteFile { path } => (closed, FlowOf::DeleteFile(path)),
                ConfirmKindOf::CloseWorkspace { id, name } => (closed, FlowOf::CloseWorkspace(id)),
                ConfirmKindOf::Pick { target, value, label } => (
                    closed,
                    FlowOf::Pick { target, value },
                ),
                ConfirmKindOf::Update { version } => (closed, FlowOf::Update),
                ConfirmKindOf::MenuAction => match v.pending_menu_action {
                    Some(a) => (
                        BenchOf {
                            pending_menu_action: None,
                            confirmed_menu_action: Some(a),
                            ..closed
                        },
                        FlowOf::MenuAction(a),
                    ),
                    None => (closed, FlowOf::Continue),
                },
            }
        },
        _ => (closed, FlowOf::Continue),
    }
}

/// Answers the question that is open, as it is marked.
pub fn confirm(view: &mut Bench) -> (f: Flow)
    ensures
        (final(view)@, f@) == answered(old(view)@),
{
    match view.overlay.take() {
        Some(Overlay::Confirm(c)) => {
            if !c.yes {
                return match c.kind {
                    ConfirmKind::Update { version } => Flow::DeclineUpdate(version),
                    _ => Flow::Continue,
                };
            }
            match c.kind {
                ConfirmKind::Discard { path } => Flow::Git(GitAction::Discard(path)),
                ConfirmKind::DeleteFile { path } => Flow::DeleteFile(path),
                ConfirmKind::CloseWorkspace { id, .. } => Flow::CloseWorkspace(id),
                ConfirmKind::Pick { target, value, .. } => Flow::Pick { target, value },
                ConfirmKind::Update { .. } => Flow::Update,
                ConfirmKind::MenuAction => match view.pending_menu_action.take() {
                    Some(action) => {
                        view.confirmed_menu_action = Some(action);
                        Flow::MenuAction(action)
                    },
                    None => Flow::Continue,
                },
            }
        },
        _ => Flow::Continue,
    }
}

/// A question answered with no closes and does nothing, but for the refusal of
/// an update, which is written down.
pub proof fn a_no_destroys_nothing(v: BenchModel)
    requires
        v.overlay matches Some(OverlayOf::Confirm(c)) && !c.yes,
    ensures
        answered(v).0 == (BenchOf { overlay: None, ..v }),
        answered(v).1 is Continue || answered(v).1 is DeclineUpdate,
        !(v.overlay->0->Confirm_0.kind is Update) ==> answered(v).1 is Continue,
{
}

/// What a key does to a list that is open.
pub open spec fn list_key(k: KeyEvent, v: BenchModel, l: ListOverlayModel) -> (
    BenchModel,
    FlowModel,
) {
    let closed = BenchOf { overlay: None, ..v };
    let down = BenchOf { overlay: Some(OverlayOf::List(list_moved(l, 1))), ..v };
    let up = BenchOf { overlay: Some(OverlayOf::List(list_moved(l, -1))), ..v };
    match k.code {
        KeyCode::Esc => (closed, FlowOf::Continue),
        KeyCode::Down => (down, FlowOf::Continue),
        KeyCode::Up => (up, FlowOf::Continue),
        KeyCode::Enter => (v, FlowOf::Choose),
        KeyCode::Char(c) => if c == 'q' {
            (closed, FlowOf::Continue)
        } else if c == 'j' {
            (down, FlowOf::Continue)
        } else if c == 'k' {
            (up, FlowOf::Continue)
        } else if c == 'd' && l.kind is SpawnAgent && chosen_of(l) is Some {
            (closed, FlowOf::PinAgent(chosen_of(l)))
        } else if c == 'y' && l.kind is Links && chosen_of(l) is Some {
            (closed, FlowOf::CopyLink(chosen_of(l)->0))
        } else {
            (v, FlowOf::Continue)
        },
        _ => (v, FlowOf::Continue),
    }
}

/// A view whose open question is marked with an answer.
pub open spec fn marked(v: BenchModel, yes: bool) -> BenchModel {
    match v.overlay {
        Some(OverlayOf::Confirm(c)) => BenchOf {
            overlay: Some(OverlayOf::Confirm(ConfirmOverlayOf { yes, ..c })),
            ..v
        },
        _ => v,
    }
}

/// What a key does to a question that is open.
pub open spec fn confirm_key(k: KeyEvent, v: BenchModel, yes: bool) -> (BenchModel, FlowModel) {
    let closed = BenchOf { overlay: None, ..v };
    match k.code {
        KeyCode::Esc => (closed, FlowOf::Continue),
        KeyCode::Down | KeyCode::Up | KeyCode::Tab => (marked(v, !yes), FlowOf::Continue),
        KeyCode::Enter => answered(v),
        KeyCode::Char(c) => if c == 'q' {
            (closed, FlowOf::Continue)
        } else if c == 'j' || c == 'k' {
            (marked(v, !yes), FlowOf::Continue)
        } else if c == 'y' {
            answered(marked(v, true))
        } else if c == 'n' {
            answered(marked(v, false))
        } else {
            (v, FlowOf::Continue)
        },
        _ => (v, FlowOf::Continue),
    }
}

/// What a key does to a search that is open.
pub open spec fn search_key(k: KeyEvent, v: BenchModel, f: SearchOverlayModel) -> (
    BenchModel,
    FlowModel,
) {
    let closed = BenchOf { overlay: None, ..v };
    let l = line_of(f.query, f.cursor);
    let asked = |l: Line|
        (
            BenchOf {
                overlay: Some(
                    OverlayOf::Search(SearchOverlayOf { searching: true, ..search_line(f, l) }),
                ),
                ..v
            },
            FlowOf::Search(l.text),
        );
    let moved = |d: int|
        BenchOf {
            overlay: Some(
                OverlayOf::Search(
                    SearchOverlayOf {
                        sel: stepped(f.sel as int, d, f.hits.len() as int) as usize,
                        ..f
                    },
                ),
            ),
            ..v
        };
    match k.code {
        KeyCode::Esc => (closed, FlowOf::Continue),
        KeyCode::Enter => match marked_hit(f) {
            Some(hit) => (
                BenchOf { page: Page::Files, ..closed },
                FlowOf::OpenFileAt { path: hit.path, line: hit.line },
            ),
            None => (closed, FlowOf::Continue),
        },
        KeyCode::Down => (moved(1), FlowOf::Continue),
        KeyCode::Up => (moved(-1), FlowOf::Continue),
        KeyCode::Backspace => asked(line_backspace(l)),
        KeyCode::Char(c) => if !k.ctrl {
            asked(line_insert(l, c))
        } else {
            (v, FlowOf::Continue)
        },
        _ => (v, FlowOf::Continue),
    }
}

/// What is said where a prompt is answered with nothing.
pub open spec fn empty_answer(kind: PromptKindOf<Seq<char>>) -> Seq<char> {
    match kind {
        PromptKindOf::SshDestination => "a machine needs a destination"@,
        PromptKindOf::NewFolder { dir } => "a folder needs a name"@,
        PromptKindOf::Commit { all } => "a commit needs a message"@,
        PromptKindOf::NewBranch => "a branch needs a name"@,
        PromptKindOf::NewTag => "a tag needs a name"@,
        PromptKindOf::NewWorktree => "a worktree needs a branch"@,
        PromptKindOf::Command => "a command needs a name"@,
    }
}

/// Every box refuses in its own words: two kinds of box that say the same of
/// nothing are one kind.
pub proof fn a_box_answers_for_itself(a: PromptKindOf<Seq<char>>, b: PromptKindOf<Seq<char>>)
    requires
        empty_answer(a) == empty_answer(b),
    ensures
        a is Commit <==> b is Commit,
        a is NewBranch <==> b is NewBranch,
        a is NewTag <==> b is NewTag,
        a is NewWorktree <==> b is NewWorktree,
        a is SshDestination <==> b is SshDestination,
        a is NewFolder <==> b is NewFolder,
        a is Command <==> b is Command,
{
    reveal_strlit("a machine needs a destination");
    reveal_strlit("a folder needs a name");
    reveal_strlit("a commit needs a message");
    reveal_strlit("a branch needs a name");
    reveal_strlit("a tag needs a name");
    reveal_strlit("a worktree needs a branch");
    reveal_strlit("a command needs a name");
    assert("a machine needs a destination"@[2] == 'm');
    assert("a folder needs a name"@[2] == 'f');
    assert("a commit needs a message"@[2] == 'c' && "a commit needs a message"@.len() == 24);
    assert("a branch needs a name"@[2] == 'b');
    assert("a tag needs a name"@[2] == 't');
    assert("a worktree needs a branch"@[2] == 'w');
    assert("a command needs a name"@[2] == 'c' && "a command needs a name"@.len() == 22);
}

/// What a line that was typed and entered asks for.
pub open spec fn entered(kind: PromptKindOf<Seq<char>>, text: Seq<char>) -> FlowModel {
    match kind {
        PromptKindOf::Commit { all } => FlowOf::Git(GitActionOf::Commit { message: text, all }),
        PromptKindOf::NewBranch => FlowOf::Git(GitActionOf::NewBranch(text)),
        PromptKindOf::NewTag => FlowOf::Git(GitActionOf::NewTag(text)),
        PromptKindOf::NewWorktree => FlowOf::Git(GitActionOf::NewWorktree(text)),
        PromptKindOf::SshDestination => FlowOf::DialHost(trimmed(text)),
        PromptKindOf::NewFolder { dir } => FlowOf::MakeFolder { dir, name: trimmed(text) },
        PromptKindOf::Command => FlowOf::RunCommand(text),
    }
}

/// What a key does to a prompt that is open. A prompt owns the keyboard: only
/// escape and enter are not typed into it. One that is answered with nothing
/// says what it wanted; the one for a folder then stays open, as it is a step inside a
/// picker.
pub open spec fn prompt_key(k: KeyEvent, v: BenchModel, p: PromptOverlayModel) -> (
    BenchModel,
    FlowModel,
) {
    let closed = BenchOf { overlay: None, ..v };
    match k.code {
        KeyCode::Esc => (closed, FlowOf::Continue),
        KeyCode::Enter => if trimmed(p.text).len() == 0 {
            (
                BenchOf {
                    flash: Some(empty_answer(p.kind)),
                    overlay: if p.kind is NewFolder {
                        v.overlay
                    } else {
                        None
                    },
                    ..v
                },
                FlowOf::Continue,
            )
        } else {
            (closed, entered(p.kind, p.text))
        },
        _ => (
            BenchOf { overlay: Some(OverlayOf::Prompt(prompt_edited(k, p))), ..v },
            FlowOf::Continue,
        ),
    }
}

/// What a key does to whatever box is open.
pub open spec fn overlay_key(k: KeyEvent, v: BenchModel) -> (BenchModel, FlowModel) {
    match v.overlay {
        None => (v, FlowOf::Continue),
        Some(OverlayOf::List(l)) => list_key(k, v, l),
        Some(OverlayOf::Confirm(c)) => confirm_key(k, v, c.yes),
        Some(OverlayOf::Prompt(p)) => prompt_key(k, v, p),
        Some(OverlayOf::Search(f)) => search_key(k, v, f),
    }
}

/// Does what a key does to a search that is open. Where none is, enter still
/// closes whatever box is.
pub fn handle_search_key(k: KeyEvent, view: &mut Bench) -> (f: Flow)
    ensures
        (final(view)@, f@) == (match old(view)@.overlay {
            Some(OverlayOf::Search(s)) => search_key(k, old(view)@, s),
            _ => (
                if k.code is Esc || k.code is Enter {
                    BenchOf { overlay: None, ..old(view)@ }
                } else {
                    old(view)@
                },
                FlowOf::Continue,
            ),
        }),
{
    let open = view.overlay.take();
    match open {
        Some(Overlay::Search(mut s)) => {
            match k.code {
                KeyCode::Esc => Flow::Continue,
                KeyCode::Enter => {
                    if s.sel < s.hits.len() {
                        view.page = Page::Files;
                        let path = s.hits[s.sel].path.clone();
                        let line = s.hits[s.sel].line;
                        Flow::OpenFileAt { path, line }
                    } else {
                        Flow::Continue
                    }
                },
                KeyCode::Down => {
                    s.sel = step(s.sel, 1, s.hits.len());
                    view.overlay = Some(Overlay::Search(s));
                    Flow::Continue
                },
                KeyCode::Up => {
                    s.sel = step(s.sel, -1, s.hits.len());
                    view.overlay = Some(Overlay::Search(s));
                    Flow::Continue
                },
                KeyCode::Backspace => {
                    s.backspace();
                    s.searching = true;
                    let query = s.query.clone();
                    view.overlay = Some(Overlay::Search(s));
                    Flow::Search(query)
                },
                KeyCode::Char(c) => {
                    if k.ctrl {
                        view.overlay = Some(Overlay::Search(s));
                        Flow::Continue
                    } else {
                        s.insert(c);
                        s.searching = true;
                        let query = s.query.clone();
                        view.overlay = Some(Overlay::Search(s));
                        Flow::Search(query)
                    }
                },
                _ => {
                    view.overlay = Some(Overlay::Search(s));
                    Flow::Continue
                },
            }
        },
        other => {
            match k.code {
                KeyCode::Esc | KeyCode::Enter => {},
                _ => {
                    view.overlay = other;
                },
            }
            Flow::Continue
        },
    }
}

fn refuse(kind: &PromptKind) -> (s: String)
    ensures
        s@ == empty_answer(kind@),
{
    match kind {
        PromptKind::SshDestination => "a machine needs a destination".to_owned(),
        PromptKind::NewFolder { .. } => "a folder needs a name".to_owned(),
        PromptKind::Commit { .. } => "a commit needs a message".to_owned(),
        PromptKind::NewBranch => "a branch needs a name".to_owned(),
        PromptKind::NewTag => "a tag needs a name".to_owned(),
        PromptKind::NewWorktree => "a worktree needs a branch".to_owned(),
        PromptKind::Command => "a command needs a name".to_owned(),
    }
}

/// Does what a key does to a prompt that is open. Where none is, enter still
/// closes whatever box is.
pub fn handle_prompt_key(k: KeyEvent, view: &mut Bench) -> (f: Flow)
    ensures
        (final(view)@, f@) == (match old(view)@.overlay {
            Some(OverlayOf::Prompt(p)) => prompt_key(k, old(view)@, p),
            _ => (
                if k.code is Esc || k.code is Enter {
                    BenchOf { overlay: None, ..old(view)@ }
                } else {
                    old(view)@
                },
                FlowOf::Continue,
            ),
        }),
{
    let open = view.overlay.take();
    match open {
        Some(Overlay::Prompt(mut p)) => {
            match k.code {
                KeyCode::Esc => Flow::Continue,
                KeyCode::Enter => {
                    let short = trim(p.text.as_str());
                    if short.as_str().is_empty() {
                        view.flash = Some(refuse(&p.kind));
                        if matches!(p.kind, PromptKind::NewFolder { .. }) {
                            view.overlay = Some(Overlay::Prompt(p));
                        }
                        return Flow::Continue;
                    }
                    match p.kind {
                        PromptKind::Commit { all } => Flow::Git(
                            GitAction::Commit { message: p.text, all },
                        ),
                        PromptKind::NewBranch => Flow::Git(GitAction::NewBranch(p.text)),
                        PromptKind::NewTag => Flow::Git(GitAction::NewTag(p.text)),
                        PromptKind::NewWorktree => Flow::Git(GitAction::NewWorktree(p.text)),
                        PromptKind::SshDestination => Flow::DialHost(short),
                        PromptKind::NewFolder { dir } => Flow::MakeFolder { dir, name: short },
                        PromptKind::Command => Flow::RunCommand(p.text),
                    }
                },
                _ => {
                    p.edit(k);
                    view.overlay = Some(Overlay::Prompt(p));
                    Flow::Continue
                },
            }
        },
        other => {
            match k.code {
                KeyCode::Esc | KeyCode::Enter => {},
                _ => {
                    view.overlay = other;
                },
            }
            Flow::Continue
        },
    }
}

/// Does what a key does to whatever box is open.
pub fn handle_overlay_key(k: KeyEvent, view: &mut Bench) -> (f: Flow)
    ensures
        (final(view)@, f@) == overlay_key(k, old(view)@),
{
    let open = view.overlay.take();
    match open {
        None => Flow::Continue,
        Some(Overlay::Prompt(p)) => {
            view.overlay = Some(Overlay::Prompt(p));
            handle_prompt_key(k, view)
        },
        Some(Overlay::Search(s)) => {
            view.overlay = Some(Overlay::Search(s));
            handle_search_key(k, view)
        },
        Some(Overlay::List(mut list)) => {
            match k.code {
                KeyCode::Esc | KeyCode::Char('q') => Flow::Continue,
                KeyCode::Down | KeyCode::Char('j') => {
                    list.sel = step(list.sel, 1, list.items.len());
                    view.overlay = Some(Overlay::List(list));
                    Flow::Continue
                },
                KeyCode::Up | KeyCode::Char('k') => {
                    list.sel = step(list.sel, -1, list.items.len());
                    view.overlay = Some(Overlay::List(list));
                    Flow::Continue
                },
                KeyCode::Enter => {
                    view.overlay = Some(Overlay::List(list));
                    Flow::Choose
                },
                KeyCode::Char('d') => {
                    let pins = matches!(list.kind, ListKindOf::SpawnAgent);
                    let name = match list.chosen() {
                        Some(n) => Some(n.to_owned()),
                        None => None,
                    };
                    if pins && name.is_some() {
                        Flow::PinAgent(name)
                    } else {
                        view.overlay = Some(Overlay::List(list));
                        Flow::Continue
                    }
                },
                KeyCode::Char('y') => {
                    let copies = matches!(list.kind, ListKindOf::Links);
                    let url = match list.chosen() {
                        Some(n) => Some(n.to_owned()),
                        None => None,
                    };
                    match url {
                        Some(url) if copies => Flow::CopyLink(url),
                        _ => {
                            view.overlay = Some(Overlay::List(list));
                            Flow::Continue
                        },
                    }
                },
                _ => {
                    view.overlay = Some(Overlay::List(list));
                    Flow::Continue
                },
            }
        },
        Some(Overlay::Confirm(mut c)) => {
            match k.code {
                KeyCode::Esc | KeyCode::Char('q') => Flow::Continue,
                KeyCode::Down | KeyCode::Up | KeyCode::Tab | KeyCode::Char('j') | KeyCode::Char('k')
                => {
                    c.yes = !c.yes;
                    view.overlay = Some(Overlay::Confirm(c));
                    Flow::Continue
                },
                KeyCode::Char('y') => {
                    c.yes = true;
                    view.overlay = Some(Overlay::Confirm(c));
                    confirm(view)
                },
                KeyCode::Char('n') => {
                    c.yes = false;
                    view.overlay = Some(Overlay::Confirm(c));
                    confirm(view)
                },
                KeyCode::Enter => {
                    view.overlay = Some(Overlay::Confirm(c));
                    confirm(view)
                },
                _ => {
                    view.overlay = Some(Overlay::Confirm(c));
                    Flow::Continue
                },
            }
        },
    }
}

/// What the mouse does to whatever box is open. `row` is the row of the box
/// under the pointer: the rows of a list are its items, the hits of a search
/// begin on its third row, and a question has its no on the third row and its
/// yes on the fourth. A press beside the box closes it.
pub open spec fn overlay_clicked(kind: MouseKind, row: Option<usize>, v: BenchModel) -> (
    BenchModel,
    FlowModel,
) {
    match kind {
        MouseKind::ScrollUp => overlay_key(
            KeyEvent { code: KeyCode::Up, ctrl: false, alt: false, shift: false },
            v,
        ),
        MouseKind::ScrollDown => overlay_key(
            KeyEvent { code: KeyCode::Down, ctrl: false, alt: false, shift: false },
            v,
        ),
        MouseKind::Down(_) => match (v.overlay, row) {
            (None, _) => (v, FlowOf::Continue),
            (Some(_), None) => (BenchOf { overlay: None, ..v }, FlowOf::Continue),
            (Some(OverlayOf::Prompt(_)), Some(_)) => (v, FlowOf::Continue),
            (Some(OverlayOf::List(l)), Some(row)) => if row >= l.items.len() {
                (v, FlowOf::Continue)
            } else {
                (
                    BenchOf {
                        overlay: Some(OverlayOf::List(ListOverlayOf { sel: row, ..l })),
                        ..v
                    },
                    FlowOf::Choose,
                )
            },
            (Some(OverlayOf::Search(f)), Some(row)) => if row < 2 || row - 2 >= f.hits.len() {
                (v, FlowOf::Continue)
            } else {
                let hit = f.hits[row - 2];
                (
                    BenchOf { overlay: None, page: Page::Files, ..v },
                    FlowOf::OpenFileAt { path: hit.path, line: hit.line },
                )
            },
            (Some(OverlayOf::Confirm(_)), Some(row)) => if row == 2 {
                answered(marked(v, false))
            } else if row == 3 {
                answered(marked(v, true))
            } else {
                (v, FlowOf::Continue)
            },
        },
        _ => (v, FlowOf::Continue),
    }
}

/// Does what the mouse does to whatever box is open.
pub fn overlay_mouse(m: &MouseEvent, view: &mut Bench, row: Option<usize>) -> (f: Flow)
    ensures
        (final(view)@, f@) == overlay_clicked(m.kind, row, old(view)@),
{
    match m.kind {
        MouseKind::ScrollUp => {
            return handle_overlay_key(KeyEvent::plain(KeyCode::Up), view);
        },
        MouseKind::ScrollDown => {
            return handle_overlay_key(KeyEvent::plain(KeyCode::Down), view);
        },
        MouseKind::Down(_) => {},
        _ => {
            return Flow::Continue;
        },
    }
    let open = view.overlay.take();
    let at: usize = match row {
        Some(at) => at,
        None => {
            return Flow::Continue;
        },
    };
    match open {
        None => Flow::Continue,
        Some(Overlay::Prompt(p)) => {
            view.overlay = Some(Overlay::Prompt(p));
            Flow::Continue
        },
        Some(Overlay::List(mut list)) => {
            if at >= list.items.len() {
                view.overlay = Some(Overlay::List(list));
                return Flow::Continue;
            }
            list.sel = at;
            view.overlay = Some(Overlay::List(list));
            Flow::Choose
        },
        Some(Overlay::Search(mut s)) => {
            if at < 2 || at - 2 >= s.hits.len() {
                view.overlay = Some(Overlay::Search(s));
                return Flow::Continue;
            }
            s.sel = at - 2;
            view.overlay = Some(Overlay::Search(s));
            handle_search_key(KeyEvent::plain(KeyCode::Enter), view)
        },
        Some(Overlay::Confirm(mut c)) => {
            if at == 2 {
                c.yes = false;
                view.overlay = Some(Overlay::Confirm(c));
                confirm(view)
            } else if at == 3 {
                c.yes = true;
                view.overlay = Some(Overlay::Confirm(c));
                confirm(view)
            } else {
                view.overlay = Some(Overlay::Confirm(c));
                Flow::Continue
            }
        },
    }
}

/// What an answer to a search does to the view: the answer to what is still
/// being asked replaces what is shown, and any other is dropped.
pub open spec fn search_answered(v: BenchModel, query: Seq<char>, hits: Seq<SearchHitModel>) -> BenchModel {
    match v.overlay {
        Some(OverlayOf::Search(f)) => if f.query == query {
            BenchOf {
                overlay: Some(
                    OverlayOf::Search(SearchOverlayOf { hits, sel: 0, searching: false, ..f }),
                ),
                ..v
            }
        } else {
            v
        },
        _ => v,
    }
}

/// Takes in the answer to a search.
pub fn apply_search(view: &mut Bench, query: &str, hits: Vec<SearchHit>)
    ensures
        final(view)@ == search_answered(old(view)@, query@, hits_model(hits@)),
{
    let open = view.overlay.take();
    match open {
        Some(Overlay::Search(mut s)) => {
            if same(s.query.as_str(), query) {
                s.hits = hits;
                s.sel = 0;
                s.searching = false;
            }
            view.overlay = Some(Overlay::Search(s));
        },
        other => {
            view.overlay = other;
        },
    }
}

/// Answers that come in any order leave the hits of the query that is on
/// screen: an answer to another query, before or after, changes nothing.
pub proof fn a_stale_answer_changes_nothing(
    v: BenchModel,
    stale: Seq<char>,
    late: Seq<SearchHitModel>,
    query: Seq<char>,
    hits: Seq<SearchHitModel>,
)
    requires
        v.overlay matches Some(OverlayOf::Search(f)) && f.query == query,
        stale != query,
    ensures
        search_answered(v, stale, late) == v,
        search_answered(search_answered(v, query, hits), stale, late) == search_answered(
            v,
            query,
            hits,
        ),
        search_answered(search_answered(v, stale, late), query, hits) == search_answered(
            v,
            query,
            hits,
        ),
{
}

/// A question with its answer marked no.
pub open spec fn question(title: Seq<char>, header: Seq<char>, kind: ConfirmKindOf<Seq<char>>) -> OverlayModel {
    OverlayOf::Confirm(ConfirmOverlayOf { title, header, yes: false, kind })
}

/// Opens a question with its answer marked no.
pub fn ask(title: &str, header: String, kind: ConfirmKind) -> (o: Overlay)
    ensures
        o@ == question(title@, header@, kind@),
{
    Overlay::Confirm(ConfirmOverlayOf { title: title.to_owned(), header, yes: false, kind })
}

/// An empty line to be typed.
pub open spec fn blank_prompt(
    title: Seq<char>,
    kind: PromptKindOf<Seq<char>>,
    subtitle: Seq<char>,
) -> OverlayModel {
    OverlayOf::Prompt(
        PromptOverlayOf { title, text: Seq::empty(), cursor: 0, kind, subtitle: Some(subtitle) },
    )
}

/// Opens an empty line to be typed.
pub fn prompt(title: &str, kind: PromptKind, subtitle: String) -> (o: Overlay)
    ensures
        o@ == blank_prompt(title@, kind@, subtitle@),
{
    Overlay::Prompt(
        PromptOverlayOf {
            title: title.to_owned(),
            text: String::new(),
            cursor: 0,
            kind,
            subtitle: Some(subtitle),
        },
    )
}

/// Asks whether to install a version that has come out.
pub fn update_overlay(version: &str, current: &str) -> (o: Overlay)
    ensures
        o@ == question(
            "UPDATE"@,
            "butai "@ + version@ + " is available — you have "@ + current@,
            ConfirmKindOf::Update { version: version@ },
        ),
{
    let mut header = cat3("butai ", version, " is available — you have ");
    header.append(current);
    ask("UPDATE", header, ConfirmKind::Update { version: version.to_owned() })
}

/// The question whether to close a workspace.
pub open spec fn close_question(id: SessionId, name: Seq<char>) -> OverlayModel {
    question(
        "CLOSE WORKSPACE"@,
        "close "@ + name + " and kill what is running in it"@,
        ConfirmKindOf::CloseWorkspace { id, name },
    )
}

/// Asks whether to close a workspace.
pub fn close_workspace_confirm(id: SessionId, name: &String) -> (o: Overlay)
    ensures
        o@ == close_question(id, name@),
{
    ask(
        "CLOSE WORKSPACE",
        cat3("close ", name.as_str(), " and kill what is running in it"),
        ConfirmKind::CloseWorkspace { id, name: name.clone() },
    )
}

/// Asks for the name of a folder to make. The directory it is made in rides on
/// the prompt, which takes the place of the list that showed it.
pub fn new_folder_prompt(dir: &str) -> (o: Overlay)
    ensures
        o@ == blank_prompt("NEW FOLDER"@, PromptKindOf::NewFolder { dir: dir@ }, "in "@ + dir@),
{
    prompt("NEW FOLDER", PromptKind::NewFolder { dir: dir.to_owned() }, cat("in ", dir))
}

/// Asks for a machine to connect to.
pub fn destination_prompt() -> (o: Overlay)
    ensures
        o@ == blank_prompt(
            "CONNECT MACHINE"@,
            PromptKindOf::SshDestination,
            "user@host, or a Host from ~/.ssh/config"@,
        ),
{
    prompt(
        "CONNECT MACHINE",
        PromptKind::SshDestination,
        "user@host, or a Host from ~/.ssh/config".to_owned(),
    )
}

/// Whether a view asks nothing, or asks with no picked.
pub open spec fn on_no(v: BenchModel) -> bool {
    v.overlay matches Some(OverlayOf::Confirm(c)) ==> !c.yes
}

/// In a list the arrows and their letters move the mark one row down or up and
/// stop at its ends; enter chooses what is marked, and escape and `q` close it.
/// The rest of the view stays.
pub proof fn a_list_is_walked_chosen_from_and_closed(
    k: KeyEvent,
    v: BenchModel,
    l: ListOverlayModel,
)
    requires
        v.overlay == Some(OverlayModel::List(l)),
        l.sel < l.items.len() <= usize::MAX,
    ensures
        ({
            let r = overlay_key(k, v);
            let marks = |row: int|
                r == (
                    BenchOf {
                        overlay: Some(OverlayModel::List(ListOverlayOf { sel: row as usize, ..l })),
                        ..v
                    },
                    FlowOf::<Seq<char>>::Continue,
                );
            &&& k.code is Down || k.code == KeyCode::Char('j') ==> marks(
                if l.sel + 1 < l.items.len() {
                    l.sel + 1
                } else {
                    l.sel as int
                },
            )
            &&& k.code is Up || k.code == KeyCode::Char('k') ==> marks(
                if l.sel > 0 {
                    l.sel - 1
                } else {
                    0
                },
            )
            &&& k.code is Enter ==> r == (v, FlowOf::<Seq<char>>::Choose)
            &&& k.code is Esc || k.code == KeyCode::Char('q') ==> r == (
                BenchOf { overlay: None, ..v },
                FlowOf::<Seq<char>>::Continue,
            )
        }),
{
}

/// `d` pins the agent that is marked in the list of agents, and `y` copies the
/// link that is marked in the list of links; each closes its list, and neither
/// does anything in another.
pub proof fn an_agent_is_pinned_and_a_link_copied(
    k: KeyEvent,
    v: BenchModel,
    l: ListOverlayModel,
    text: Seq<char>,
)
    requires
        v.overlay == Some(OverlayModel::List(l)),
        chosen_of(l) == Some(text),
    ensures
        ({
            let r = overlay_key(k, v);
            let closed = BenchOf { overlay: None, ..v };
            &&& k.code == KeyCode::Char('d') && l.kind is SpawnAgent ==> r == (
                closed,
                FlowOf::PinAgent(Some(text)),
            )
            &&& k.code == KeyCode::Char('d') && l.kind !is SpawnAgent ==> r == (
                v,
                FlowOf::<Seq<char>>::Continue,
            )
            &&& k.code == KeyCode::Char('y') && l.kind is Links ==> r == (
                closed,
                FlowOf::CopyLink(text),
            )
            &&& k.code == KeyCode::Char('y') && l.kind !is Links ==> r == (
                v,
                FlowOf::<Seq<char>>::Continue,
            )
        }),
{
}

/// Choosing a row means its value where the list has values, and what it says
/// where it has none; past the end of the list it means nothing.
pub proof fn choosing_means_the_value_of_the_row(l: ListOverlayModel, values: Seq<Seq<char>>)
    ensures
        l.values == Some(values) && l.sel < values.len() ==> chosen_of(l) == Some(
            values[l.sel as int],
        ),
        l.values == Some(values) && l.sel >= values.len() ==> chosen_of(l) is None,
        l.values is None && l.sel < l.items.len() ==> chosen_of(l) == Some(l.items[l.sel as int]),
        l.values is None && l.sel >= l.items.len() ==> chosen_of(l) is None,
{
}

/// A question that is answered with yes does what it asked about, and nothing
/// else: it closes and asks for just that.
pub proof fn a_yes_does_what_was_asked_about(
    k: KeyEvent,
    v: BenchModel,
    c: ConfirmOverlayOf<Seq<char>>,
    path: Seq<char>,
    name: Seq<char>,
    id: SessionId,
    target: crate::types::PickTarget,
    action: crate::types::MenuAction,
)
    requires
        v.overlay == Some(OverlayModel::Confirm(c)),
        k.code == KeyCode::Char('y') || k.code is Enter && c.yes,
    ensures
        ({
            let r = overlay_key(k, v);
            let closed = BenchOf { overlay: None, ..v };
            &&& c.kind == (ConfirmKindOf::Discard { path }) ==> r == (
                closed,
                FlowOf::Git(GitActionOf::Discard(path)),
            )
            &&& c.kind == (ConfirmKindOf::DeleteFile { path }) ==> r == (
                closed,
                FlowOf::DeleteFile(path),
            )
            &&& c.kind == (ConfirmKindOf::CloseWorkspace { id, name }) ==> r == (
                closed,
                FlowOf::<Seq<char>>::CloseWorkspace(id),
            )
            &&& c.kind == (ConfirmKindOf::Pick { target, value: path, label: name }) ==> r == (
                closed,
                FlowOf::Pick { target, value: path },
            )
            &&& c.kind == (ConfirmKindOf::Update { version: path }) ==> r == (
                closed,
                FlowOf::<Seq<char>>::Update,
            )
            &&& c.kind is MenuAction && v.pending_menu_action == Some(action) ==> r == (
                BenchOf {
                    pending_menu_action: None,
                    confirmed_menu_action: Some(action),
                    ..closed
                },
                FlowOf::<Seq<char>>::MenuAction(action),
            )
            &&& c.kind is MenuAction && v.pending_menu_action is None ==> r == (
                closed,
                FlowOf::<Seq<char>>::Continue,
            )
        }),
{
}

/// A question that is answered with no, or escaped from, closes. Only the
/// refusal of an update asks for something: that the version be remembered.
/// The arrows, the tab key and their letters mark the other answer.
pub proof fn a_question_is_refused_or_left(
    k: KeyEvent,
    v: BenchModel,
    c: ConfirmOverlayOf<Seq<char>>,
    version: Seq<char>,
)
    requires
        v.overlay == Some(OverlayModel::Confirm(c)),
    ensures
        ({
            let r = overlay_key(k, v);
            let closed = BenchOf { overlay: None, ..v };
            let no = k.code == KeyCode::Char('n') || k.code is Enter && !c.yes;
            &&& no && c.kind == (ConfirmKindOf::Update { version }) ==> r == (
                closed,
                FlowOf::DeclineUpdate(version),
            )
            &&& no && c.kind !is Update ==> r == (closed, FlowOf::<Seq<char>>::Continue)
            &&& k.code is Esc || k.code == KeyCode::Char('q') ==> r == (
                closed,
                FlowOf::<Seq<char>>::Continue,
            )
            &&& k.code is Down || k.code is Up || k.code is Tab || k.code == KeyCode::Char('j')
                || k.code == KeyCode::Char('k') ==> r == (
                BenchOf {
                    overlay: Some(OverlayModel::Confirm(ConfirmOverlayOf { yes: !c.yes, ..c })),
                    ..v
                },
                FlowOf::<Seq<char>>::Continue,
            )
        }),
{
}

/// A key in a search is typed into its query, or takes back the last
/// character, and what is then asked for is what the query says. The arrows
/// move the mark among the hits, and enter opens the one that is marked, at
/// its line, on the page of files.
pub proof fn a_search_asks_for_what_it_says(
    k: KeyEvent,
    v: BenchModel,
    f: SearchOverlayModel,
    c: char,
)
    requires
        v.overlay == Some(OverlayModel::Search(f)),
        f.cursor == f.query.len() < usize::MAX,
        f.hits.len() <= usize::MAX,
    ensures
        ({
            let r = overlay_key(k, v);
            let closed = BenchOf { overlay: None, ..v };
            let types = |query: Seq<char>|
                r.1 == FlowOf::Search(query) && (r.0.overlay matches Some(OverlayOf::Search(now))
                    && now.query == query && now.cursor == query.len() && now.searching
                    && now.hits == f.hits);
            let marks = |row: int|
                r == (
                    BenchOf {
                        overlay: Some(
                            OverlayModel::Search(SearchOverlayOf { sel: row as usize, ..f }),
                        ),
                        ..v
                    },
                    FlowOf::<Seq<char>>::Continue,
                );
            &&& k.code == KeyCode::Char(c) && !k.ctrl ==> types(f.query.push(c))
            &&& k.code is Backspace && f.query.len() > 0 ==> types(f.query.drop_last())
            &&& k.code is Down && f.sel < f.hits.len() ==> marks(
                if f.sel + 1 < f.hits.len() {
                    f.sel + 1
                } else {
                    f.sel as int
                },
            )
            &&& k.code is Up && f.sel < f.hits.len() ==> marks(
                if f.sel > 0 {
                    f.sel - 1
                } else {
                    0
                },
            )
            &&& k.code is Enter && f.sel < f.hits.len() ==> r == (
                BenchOf { page: Page::Files, ..closed },
                FlowOf::OpenFileAt {
                    path: f.hits[f.sel as int].path,
                    line: f.hits[f.sel as int].line,
                },
            )
            &&& k.code is Enter && f.sel >= f.hits.len() ==> r == (
                closed,
                FlowOf::<Seq<char>>::Continue,
            )
            &&& k.code is Esc ==> r == (closed, FlowOf::<Seq<char>>::Continue)
        }),
{
    assert(f.query.insert(f.query.len() as int, c) =~= f.query.push(c));
    if f.query.len() > 0 {
        assert(f.query.remove(f.query.len() - 1) =~= f.query.drop_last());
    }
}

/// A line that is entered asks for what its box is for, with the line itself:
/// a machine and a folder without the blanks around their names. A line of
/// nothing but blanks is refused in the words of its box, and only the box of
/// a folder stays open then.
pub proof fn an_entered_line_asks_for_what_its_box_is_for(
    k: KeyEvent,
    v: BenchModel,
    p: PromptOverlayModel,
    dir: Seq<char>,
)
    requires
        v.overlay == Some(OverlayModel::Prompt(p)),
        k.code is Enter,
    ensures
        ({
            let r = overlay_key(k, v);
            let asks = |f: FlowModel| r == (BenchOf { overlay: None, ..v }, f);
            let says = |text: Seq<char>|
                r == (
                    BenchOf { overlay: None, flash: Some(text), ..v },
                    FlowOf::<Seq<char>>::Continue,
                );
            &&& trimmed(p.text).len() > 0 ==> {
                &&& p.kind == (PromptKindOf::<Seq<char>>::Commit { all: false }) ==> asks(
                    FlowOf::Git(GitActionOf::Commit { message: p.text, all: false }),
                )
                &&& p.kind == (PromptKindOf::<Seq<char>>::Commit { all: true }) ==> asks(
                    FlowOf::Git(GitActionOf::Commit { message: p.text, all: true }),
                )
                &&& p.kind is NewBranch ==> asks(FlowOf::Git(GitActionOf::NewBranch(p.text)))
                &&& p.kind is NewTag ==> asks(FlowOf::Git(GitActionOf::NewTag(p.text)))
                &&& p.kind is NewWorktree ==> asks(FlowOf::Git(GitActionOf::NewWorktree(p.text)))
                &&& p.kind is SshDestination ==> asks(FlowOf::DialHost(trimmed(p.text)))
                &&& p.kind == (PromptKindOf::NewFolder { dir }) ==> asks(
                    FlowOf::MakeFolder { dir, name: trimmed(p.text) },
                )
                &&& p.kind is Command ==> asks(FlowOf::RunCommand(p.text))
            }
            &&& trimmed(p.text).len() == 0 ==> {
                &&& p.kind is Commit ==> says("a commit needs a message"@)
                &&& p.kind is NewBranch ==> says("a branch needs a name"@)
                &&& p.kind is NewTag ==> says("a tag needs a name"@)
                &&& p.kind is NewWorktree ==> says("a worktree needs a branch"@)
                &&& p.kind is SshDestination ==> says("a machine needs a destination"@)
                &&& p.kind is Command ==> says("a command needs a name"@)
                &&& p.kind is NewFolder ==> r == (
                    BenchOf { flash: Some("a folder needs a name"@), ..v },
                    FlowOf::<Seq<char>>::Continue,
                )
            }
        }),
{
}

/// A key in a prompt edits its line: a character is typed at the cursor,
/// backspace takes the one before it and delete the one at it, and the arrows,
/// home and end move the cursor, which stays in the line. Escape closes the
/// prompt and asks for nothing.
pub proof fn a_prompt_is_edited_at_its_cursor(
    k: KeyEvent,
    v: BenchModel,
    p: PromptOverlayModel,
    c: char,
)
    requires
        v.overlay == Some(OverlayModel::Prompt(p)),
        p.cursor <= p.text.len() < usize::MAX,
    ensures
        ({
            let r = overlay_key(k, v);
            let at = p.cursor as int;
            let edits = |text: Seq<char>, cursor: int|
                r == (
                    BenchOf {
                        overlay: Some(
                            OverlayModel::Prompt(
                                PromptOverlayOf { text, cursor: cursor as usize, ..p },
                            ),
                        ),
                        ..v
                    },
                    FlowOf::<Seq<char>>::Continue,
                );
            &&& k.code == KeyCode::Char(c) && !k.ctrl ==> edits(
                p.text.take(at) + seq![c] + p.text.skip(at),
                at + 1,
            )
            &&& k.code is Backspace && at > 0 ==> edits(
                p.text.take(at - 1) + p.text.skip(at),
                at - 1,
            )
            &&& k.code is Backspace && at == 0 ==> edits(p.text, 0)
            &&& k.code is Delete && at < p.text.len() ==> edits(
                p.text.take(at) + p.text.skip(at + 1),
                at,
            )
            &&& k.code is Delete && at == p.text.len() ==> edits(p.text, at)
            &&& k.code is Left ==> edits(
                p.text,
                if at > 0 {
                    at - 1
                } else {
                    0
                },
            )
            &&& k.code is Right ==> edits(
                p.text,
                if at < p.text.len() {
                    at + 1
                } else {
                    at
                },
            )
            &&& k.code is Home ==> edits(p.text, 0)
            &&& k.code is End ==> edits(p.text, p.text.len() as int)
            &&& k.code is Esc ==> r == (
                BenchOf { overlay: None, ..v },
                FlowOf::<Seq<char>>::Continue,
            )
        }),
{
    let at = p.cursor as int;
    assert(p.text.insert(at, c) =~= p.text.take(at) + seq![c] + p.text.skip(at));
    if at > 0 {
        assert(p.text.remove(at - 1) =~= p.text.take(at - 1) + p.text.skip(at));
    }
    if at < p.text.len() {
        assert(p.text.remove(at) =~= p.text.take(at) + p.text.skip(at + 1));
    }
}

/// A click on a row of a list chooses it, one on a hit opens it, and on a
/// question the third row is no and the fourth yes. A press beside a box
/// closes it, and the wheel walks it like the arrows.
pub proof fn a_box_is_clicked_row_by_row(
    button: crate::types::MouseButton,
    row: usize,
    v: BenchModel,
)
    ensures
        ({
            let on = |row: Option<usize>| overlay_clicked(MouseKind::Down(button), row, v);
            &&& v.overlay is Some ==> on(None) == (
                BenchOf { overlay: None, ..v },
                FlowOf::<Seq<char>>::Continue,
            )
            &&& v.overlay matches Some(OverlayOf::List(l)) ==> {
                &&& row < l.items.len() ==> on(Some(row)) == (
                    BenchOf {
                        overlay: Some(OverlayModel::List(ListOverlayOf { sel: row, ..l })),
                        ..v
                    },
                    FlowOf::<Seq<char>>::Choose,
                )
                &&& row >= l.items.len() ==> on(Some(row)) == (v, FlowOf::<Seq<char>>::Continue)
            }
            &&& v.overlay matches Some(OverlayOf::Search(f)) ==> {
                &&& 2 <= row && row - 2 < f.hits.len() ==> on(Some(row)) == (
                    BenchOf { overlay: None, page: Page::Files, ..v },
                    FlowOf::OpenFileAt { path: f.hits[row - 2].path, line: f.hits[row - 2].line },
                )
                &&& row < 2 || row - 2 >= f.hits.len() ==> on(Some(row)) == (
                    v,
                    FlowOf::<Seq<char>>::Continue,
                )
            }
            &&& v.overlay matches Some(OverlayOf::Confirm(c)) ==> {
                &&& row == 2 ==> on(Some(row)) == overlay_key(
                    KeyEvent { code: KeyCode::Char('n'), ctrl: false, alt: false, shift: false },
                    v,
                )
                &&& row == 3 ==> on(Some(row)) == overlay_key(
                    KeyEvent { code: KeyCode::Char('y'), ctrl: false, alt: false, shift: false },
                    v,
                )
                &&& row != 2 && row != 3 ==> on(Some(row)) == (v, FlowOf::<Seq<char>>::Continue)
            }
            &&& v.overlay matches Some(OverlayOf::Prompt(p)) ==> on(Some(row)) == (
                v,
                FlowOf::<Seq<char>>::Continue,
            )
        }),
        overlay_clicked(MouseKind::ScrollDown, Some(row), v) == overlay_key(
            KeyEvent { code: KeyCode::Down, ctrl: false, alt: false, shift: false },
            v,
        ),
        overlay_clicked(MouseKind::ScrollUp, Some(row), v) == overlay_key(
            KeyEvent { code: KeyCode::Up, ctrl: false, alt: false, shift: false },
            v,
        ),
{
}

/// The answer to the query on screen is shown, with the mark on its first hit,
/// and ends the searching.
pub proof fn an_answer_shows_its_hits(v: BenchModel, f: SearchOverlayModel, hits: Seq<SearchHitModel>)
    requires
        v.overlay == Some(OverlayModel::Search(f)),
    ensures
        search_answered(v, f.query, hits) == (BenchOf {
            overlay: Some(
                OverlayModel::Search(
                    SearchOverlayOf {
                        query: f.query,
                        cursor: f.cursor,
                        hits,
                        sel: 0,
                        searching: false,
                    },
                ),
            ),
            ..v
        }),
{
}

/// A question about a workspace names it, and is about that workspace; every
/// question opens on no and every line empty.
pub proof fn a_box_opens_on_no_and_empty(
    id: SessionId,
    name: Seq<char>,
    title: Seq<char>,
    kind: PromptKindOf<Seq<char>>,
    about: ConfirmKindOf<Seq<char>>,
)
    ensures
        close_question(id, name) == OverlayModel::Confirm(
            ConfirmOverlayOf {
                title: "CLOSE WORKSPACE"@,
                header: "close "@ + name + " and kill what is running in it"@,
                yes: false,
                kind: ConfirmKindOf::CloseWorkspace { id, name },
            },
        ),
        question(title, name, about) == OverlayModel::Confirm(
            ConfirmOverlayOf { title, header: name, yes: false, kind: about },
        ),
        blank_prompt(title, kind, name) == OverlayModel::Prompt(
            PromptOverlayOf {
                title,
                text: Seq::empty(),
                cursor: 0,
                kind,
                subtitle: Some(name),
            },
        ),
{
}

} // verus!
