//! What the workbench is made of: keys, pages, overlays, the view, and the
//! flows that a key or a click asks for.
//!
//! A type that holds text takes the type of that text as a parameter. The
//! program works on `String`; the contracts work on the same type over
//! `Seq<char>`, which is the first one's view.
use vstd::prelude::*;

use crate::text::{opt_text, texts};

verus! {

/// A pane of a machine. Its number is unique on that machine only.
#[derive(Clone, Copy, Debug, PartialEq, Eq, Structural)]
pub struct PaneId(pub u64);

/// A workspace of a machine. Its number is unique on that machine only.
#[derive(Clone, Copy, Debug, PartialEq, Eq, Structural)]
pub struct SessionId(pub u64);

/// A key, without what was held down with it.
#[derive(Clone, Copy, Debug, PartialEq, Eq, Structural)]
pub enum KeyCode {
    Char(char),
    Enter,
    Esc,
    Tab,
    BackTab,
    Backspace,
    Delete,
    Insert,
    Up,
    Down,
    Left,
    Right,
    Home,
    End,
    PageUp,
    PageDown,
    F(u8),
    Other,
}

/// A key press.
#[derive(Clone, Copy, Debug, PartialEq, Eq, Structural)]
pub struct KeyEvent {
    pub code: KeyCode,
    pub ctrl: bool,
    pub alt: bool,
    pub shift: bool,
}

impl KeyEvent {
    /// A key pressed with nothing held down.
    pub fn plain(code: KeyCode) -> KeyEvent
        returns
            (KeyEvent { code, ctrl: false, alt: false, shift: false }),
    {
        KeyEvent { code, ctrl: false, alt: false, shift: false }
    }
}

/// A button of the mouse.
#[derive(Clone, Copy, Debug, PartialEq, Eq, Structural)]
pub enum MouseButton {
    Left,
    Right,
    Middle,
}

/// What the mouse did.
#[derive(Clone, Copy, Debug, PartialEq, Eq, Structural)]
pub enum MouseKind {
    Down(MouseButton),
    Drag(MouseButton),
    Up(MouseButton),
    ScrollUp,
    ScrollDown,
    Other,
}

/// Something the mouse did, and where on the screen.
#[derive(Clone, Copy, Debug, PartialEq, Eq, Structural)]
pub struct MouseEvent {
    pub kind: MouseKind,
    pub column: u16,
    pub row: u16,
    pub alt: bool,
    pub shift: bool,
}

/// A page of the workbench.
#[derive(Clone, Copy, Debug, PartialEq, Eq, Structural)]
pub enum Page {
    Booth,
    Agents,
    Files,
    Docs,
    Docker,
    Diff,
    Git,
    Settings,
    Help,
    Usage,
}

impl Page {
    /// Whether the page shows a tree of files.
    #[verifier::allow_in_spec]
    pub fn is_tree(self) -> bool
        returns
            self is Files || self is Docs,
    {
        match self {
            Page::Files | Page::Docs => true,
            _ => false,
        }
    }

    /// Whether the page has a pane that can be typed into.
    #[verifier::allow_in_spec]
    pub fn draws_stage(self) -> bool
        returns
            self is Booth || self is Agents,
    {
        match self {
            Page::Booth | Page::Agents => true,
            _ => false,
        }
    }

    /// Whether the page shows a pane at all, if only to read it.
    #[verifier::allow_in_spec]
    pub fn shows_pane(self) -> bool
        returns
            self is Booth || self is Agents || self is Docker,
    {
        match self {
            Page::Booth | Page::Agents | Page::Docker => true,
            _ => false,
        }
    }
}

/// Where the keyboard is.
#[derive(Clone, Copy, Debug, PartialEq, Eq, Structural)]
pub enum Focus {
    Agents,
    Processes,
    Changes,
    AllAgents,
    Refs,
    History,
    Stage,
}

/// A row of the git menu.
#[derive(Clone, Copy, Debug, PartialEq, Eq, Structural)]
pub enum MenuAction {
    Checkout,
    NewBranch,
    DeleteBranch,
    Merge,
    Rebase,
    StashList,
    StashDrop,
    TagCreate,
    TagDelete,
    RemoteRemove,
    WorktreeList,
    WorktreeAdd,
    WorktreeRemove,
    WorktreePrune,
    Fetch,
    Pull,
    PullRebase,
    Push,
    PushUpstream,
    PushForce,
    StashPush,
    StashPop,
    SequenceContinue,
    SequenceAbort,
    SequenceSkip,
    Amend,
    ResetSoft,
    ResetHard,
}

impl MenuAction {
    /// Whether the row destroys something as soon as it runs, so that it has
    /// to be asked about first.
    #[verifier::allow_in_spec]
    pub fn needs_confirm(self) -> bool
        returns
            self is PushForce || self is ResetHard || self is SequenceAbort,
    {
        match self {
            MenuAction::PushForce | MenuAction::ResetHard | MenuAction::SequenceAbort => true,
            _ => false,
        }
    }
}

/// What a chosen row of a picker is for.
#[derive(Clone, Copy, Debug, PartialEq, Eq, Structural)]
pub enum PickTarget {
    Checkout,
    Revert,
    CherryPick,
    DeleteBranch,
    Merge,
    Rebase,
    StashPop,
    StashDrop,
    TagDelete,
    RemoteRemove,
    OpenWorktree,
    RemoveWorktree,
}

impl PickTarget {
    /// Whether the pick destroys what was chosen, so that it is asked about
    /// once the row is known.
    #[verifier::allow_in_spec]
    pub fn destroys(self) -> bool
        returns
            self is DeleteBranch || self is StashDrop || self is TagDelete || self is RemoteRemove
                || self is RemoveWorktree,
    {
        match self {
            PickTarget::DeleteBranch
            | PickTarget::StashDrop
            | PickTarget::TagDelete
            | PickTarget::RemoteRemove
            | PickTarget::RemoveWorktree => true,
            _ => false,
        }
    }
}

/// What a context menu was opened on.
#[derive(Clone, Copy, Debug, PartialEq, Eq, Structural)]
pub enum MenuTarget {
    Process(PaneId),
    Agent { daemon: usize, workspace: SessionId, pane: PaneId },
    Tab(usize),
    RemoteTab(usize),
}

/// A group of the git menu, by its place in the table of groups.
#[derive(Clone, Copy, Debug, PartialEq, Eq, Structural)]
pub struct MenuGroup(pub usize);

/// A band of the layout, by its place in the table of bands.
#[derive(Clone, Copy, Debug, PartialEq, Eq, Structural)]
pub struct Band(pub usize);

/// A change of the layout, to be carried out within the limits that the size
/// of the screen sets.
#[derive(Clone, Copy, Debug, PartialEq, Eq, Structural)]
pub enum GeomStep {
    Rail { left: bool, delta: i16 },
    Band { band: Band, delta: i16 },
    AutoBand(Band),
    Section { focus: Focus, delta: i16 },
}

/// A request to a machine's control channel.
#[derive(Clone, Copy, Debug, PartialEq, Eq, Structural)]
pub enum Command {
    KillServer,
    KillServerClear,
    ReloadConfig,
}

/// Which of the tabs to go to. Tabs are named from one.
#[derive(Clone, Copy, Debug, PartialEq, Eq, Structural)]
pub enum TabMove {
    To(usize),
    Next,
    Prev,
}

/// Which side of a conflict to take.
#[derive(Clone, Copy, Debug, PartialEq, Eq, Structural)]
pub enum ResolveSide {
    Ours,
    Theirs,
    Resolved,
}

/// Which diff is meant.
#[verifier::ext_equal]
#[derive(Clone, Debug, PartialEq, Eq)]
pub enum DiffKindOf<S> {
    Unstaged { path: Option<S> },
    Staged { path: Option<S> },
    Commit { id: S, summary: S },
}

pub type DiffKind = DiffKindOf<String>;

pub type DiffKindModel = DiffKindOf<Seq<char>>;

impl View for DiffKindOf<String> {
    type V = DiffKindOf<Seq<char>>;

    open spec fn view(&self) -> DiffKindOf<Seq<char>> {
        match *self {
            DiffKindOf::Unstaged { path } => DiffKindOf::Unstaged { path: opt_text(path) },
            DiffKindOf::Staged { path } => DiffKindOf::Staged { path: opt_text(path) },
            DiffKindOf::Commit { id, summary } => DiffKindOf::Commit {
                id: id@,
                summary: summary@,
            },
        }
    }
}

impl<S> DiffKindOf<S> {
    /// Whether the diff is of something that can still be staged or thrown
    /// away. History cannot.
    #[verifier::allow_in_spec]
    pub fn mutable(&self) -> bool
        returns
            self !is Commit,
    {
        match self {
            DiffKindOf::Commit { .. } => false,
            _ => true,
        }
    }
}

/// A copy of which diff is meant.
pub fn clone_diff_kind(k: &DiffKind) -> (r: DiffKind)
    ensures
        r == *k,
{
    match k {
        DiffKindOf::Unstaged { path } => DiffKindOf::Unstaged { path: crate::text::clone_opt(path) },
        DiffKindOf::Staged { path } => DiffKindOf::Staged { path: crate::text::clone_opt(path) },
        DiffKindOf::Commit { id, summary } => DiffKindOf::Commit {
            id: id.clone(),
            summary: summary.clone(),
        },
    }
}

/// Something to do to the working tree or the repository of the open
/// workspace.
#[verifier::ext_equal]
#[derive(Clone, Debug, PartialEq, Eq)]
pub enum GitActionOf<S> {
    Stage(S),
    Unstage(S),
    Discard(S),
    Commit { message: S, all: bool },
    Push,
    Resolve { path: S, take: ResolveSide },
    NewBranch(S),
    NewTag(S),
    NewWorktree(S),
}

pub type GitAction = GitActionOf<String>;

pub type GitActionModel = GitActionOf<Seq<char>>;

impl View for GitActionOf<String> {
    type V = GitActionOf<Seq<char>>;

    open spec fn view(&self) -> GitActionOf<Seq<char>> {
        match *self {
            GitActionOf::Stage(p) => GitActionOf::Stage(p@),
            GitActionOf::Unstage(p) => GitActionOf::Unstage(p@),
            GitActionOf::Discard(p) => GitActionOf::Discard(p@),
            GitActionOf::Commit { message, all } => GitActionOf::Commit { message: message@, all },
            GitActionOf::Push => GitActionOf::Push,
            GitActionOf::Resolve { path, take } => GitActionOf::Resolve { path: path@, take },
            GitActionOf::NewBranch(n) => GitActionOf::NewBranch(n@),
            GitActionOf::NewTag(n) => GitActionOf::NewTag(n@),
            GitActionOf::NewWorktree(n) => GitActionOf::NewWorktree(n@),
        }
    }
}

/// Where a process goes once it runs: on the stage, into the rail behind what
/// is on screen, or into the log column of the page that asked.
#[verifier::ext_equal]
#[derive(Clone, Debug, PartialEq, Eq)]
pub enum SpawnedOf<S> {
    Stage,
    Rail,
    Follow(S),
}

pub type Spawned = SpawnedOf<String>;

pub type SpawnedModel = SpawnedOf<Seq<char>>;

impl View for SpawnedOf<String> {
    type V = SpawnedOf<Seq<char>>;

    open spec fn view(&self) -> SpawnedOf<Seq<char>> {
        match *self {
            SpawnedOf::Stage => SpawnedOf::Stage,
            SpawnedOf::Rail => SpawnedOf::Rail,
            SpawnedOf::Follow(n) => SpawnedOf::Follow(n@),
        }
    }
}

/// A change made on the settings page.
#[verifier::ext_equal]
#[derive(Clone, Debug, PartialEq, Eq)]
pub enum EditOf<S> {
    Moved,
    Theme(S),
    DefaultAgent(Option<S>),
    AutoAttach(bool),
    Links(bool),
    UpdateCheck(bool),
    Geom(GeomStep),
}

pub type Edit = EditOf<String>;

pub type EditModel = EditOf<Seq<char>>;

impl View for EditOf<String> {
    type V = EditOf<Seq<char>>;

    open spec fn view(&self) -> EditOf<Seq<char>> {
        match *self {
            EditOf::Moved => EditOf::Moved,
            EditOf::Theme(n) => EditOf::Theme(n@),
            EditOf::DefaultAgent(n) => EditOf::DefaultAgent(opt_text(n)),
            EditOf::AutoAttach(b) => EditOf::AutoAttach(b),
            EditOf::Links(b) => EditOf::Links(b),
            EditOf::UpdateCheck(b) => EditOf::UpdateCheck(b),
            EditOf::Geom(g) => EditOf::Geom(g),
        }
    }
}

/// What the history list shows: everything, or what one ref leads to.
#[verifier::ext_equal]
#[derive(Clone, Debug, PartialEq, Eq)]
pub enum GitScopeOf<S> {
    Everything,
    Ref(S),
}

pub type GitScope = GitScopeOf<String>;

pub type GitScopeModel = GitScopeOf<Seq<char>>;

impl View for GitScopeOf<String> {
    type V = GitScopeOf<Seq<char>>;

    open spec fn view(&self) -> GitScopeOf<Seq<char>> {
        match *self {
            GitScopeOf::Everything => GitScopeOf::Everything,
            GitScopeOf::Ref(n) => GitScopeOf::Ref(n@),
        }
    }
}

/// What a key, a click or an answer asks the event loop to do.
#[verifier::ext_equal]
#[derive(Clone, Debug, PartialEq, Eq)]
pub enum FlowOf<S> {
    Continue,
    Detach,
    Update,
    DeclineUpdate(S),
    CheckUpdate,
    PickAgent,
    PickLinks,
    CopyLink(S),
    PickBranch,
    RefreshUsage,
    Search(S),
    Browse(S),
    MakeFolder { dir: S, name: S },
    CloseWorkspace(SessionId),
    MenuAction(MenuAction),
    Pick { target: PickTarget, value: S },
    Choose,
    OpenFleetAgent(usize),
    /// Go to the workspace that is open on a checkout, or open one there where
    /// it has gone.
    GoWorktree { workspace: SessionId, path: S },
    GitRefresh,
    ConfirmPick { target: PickTarget, value: S },
    GitFetch(S),
    GitCopySha,
    GitScope(GitScopeOf<S>),
    GitOpenCommit,
    GitShowRev { rev: S, title: S },
    GitOpenDiff { kind: DiffKindOf<S>, keep_cursor: bool },
    ListDir(S),
    OpenFile(S),
    OpenFileAt { path: S, line: Option<u32> },
    OpenDiff { kind: DiffKindOf<S>, keep_cursor: bool },
    ApplyDiff { discard: bool },
    SaveFile,
    DeleteFile(S),
    Git(GitActionOf<S>),
    RunProcess { name: S, command: S, then: SpawnedOf<S> },
    SpawnAgent(S),
    NewAgent,
    PinAgent(Option<S>),
    SettingsEdit(EditOf<S>),
    OpenSettings,
    CloseSettings,
    OpenHelp,
    CloseHelp,
    Scroll(i16),
    PickHost,
    PickSpace,
    DialHost(S),
    StageSelected,
    OpenSelectedDiff,
    RestartProcess,
    ToggleLayout,
    Resize(GeomStep),
    CopySelection,
    PasteImage,
    GitMenu,
    CloseStagePane,
    KillSelected,
    Control(Command),
    BrowseHere,
    AskCloseWorkspace,
    GoTab(TabMove),
    /// The command line asks for something to be read as a command.
    RunCommand(S),
}

pub type Flow = FlowOf<String>;

pub type FlowModel = FlowOf<Seq<char>>;

impl View for FlowOf<String> {
    type V = FlowOf<Seq<char>>;

    open spec fn view(&self) -> FlowOf<Seq<char>> {
        match *self {
            FlowOf::Continue => FlowOf::Continue,
            FlowOf::Detach => FlowOf::Detach,
            FlowOf::Update => FlowOf::Update,
            FlowOf::DeclineUpdate(v) => FlowOf::DeclineUpdate(v@),
            FlowOf::CheckUpdate => FlowOf::CheckUpdate,
            FlowOf::PickAgent => FlowOf::PickAgent,
            FlowOf::PickLinks => FlowOf::PickLinks,
            FlowOf::CopyLink(v) => FlowOf::CopyLink(v@),
            FlowOf::PickBranch => FlowOf::PickBranch,
            FlowOf::RefreshUsage => FlowOf::RefreshUsage,
            FlowOf::Search(v) => FlowOf::Search(v@),
            FlowOf::Browse(v) => FlowOf::Browse(v@),
            FlowOf::MakeFolder { dir, name } => FlowOf::MakeFolder { dir: dir@, name: name@ },
            FlowOf::CloseWorkspace(id) => FlowOf::CloseWorkspace(id),
            FlowOf::MenuAction(a) => FlowOf::MenuAction(a),
            FlowOf::Pick { target, value } => FlowOf::Pick { target, value: value@ },
            FlowOf::Choose => FlowOf::Choose,
            FlowOf::OpenFleetAgent(i) => FlowOf::OpenFleetAgent(i),
            FlowOf::GoWorktree { workspace, path } => FlowOf::GoWorktree { workspace, path: path@ },
            FlowOf::GitRefresh => FlowOf::GitRefresh,
            FlowOf::ConfirmPick { target, value } => FlowOf::ConfirmPick { target, value: value@ },
            FlowOf::GitFetch(v) => FlowOf::GitFetch(v@),
            FlowOf::GitCopySha => FlowOf::GitCopySha,
            FlowOf::GitScope(s) => FlowOf::GitScope(s@),
            FlowOf::GitOpenCommit => FlowOf::GitOpenCommit,
            FlowOf::GitShowRev { rev, title } => FlowOf::GitShowRev { rev: rev@, title: title@ },
            FlowOf::GitOpenDiff { kind, keep_cursor } => FlowOf::GitOpenDiff {
                kind: kind@,
                keep_cursor,
            },
            FlowOf::ListDir(v) => FlowOf::ListDir(v@),
            FlowOf::OpenFile(v) => FlowOf::OpenFile(v@),
            FlowOf::OpenFileAt { path, line } => FlowOf::OpenFileAt { path: path@, line },
            FlowOf::OpenDiff { kind, keep_cursor } => FlowOf::OpenDiff { kind: kind@, keep_cursor },
            FlowOf::ApplyDiff { discard } => FlowOf::ApplyDiff { discard },
            FlowOf::SaveFile => FlowOf::SaveFile,
            FlowOf::DeleteFile(v) => FlowOf::DeleteFile(v@),
            FlowOf::Git(a) => FlowOf::Git(a@),
            FlowOf::RunProcess { name, command, then } => FlowOf::RunProcess {
                name: name@,
                command: command@,
                then: then@,
            },
            FlowOf::SpawnAgent(v) => FlowOf::SpawnAgent(v@),
            FlowOf::NewAgent => FlowOf::NewAgent,
            FlowOf::PinAgent(v) => FlowOf::PinAgent(opt_text(v)),
            FlowOf::SettingsEdit(e) => FlowOf::SettingsEdit(e@),
            FlowOf::OpenSettings => FlowOf::OpenSettings,
            FlowOf::CloseSettings => FlowOf::CloseSettings,
            FlowOf::OpenHelp => FlowOf::OpenHelp,
            FlowOf::CloseHelp => FlowOf::CloseHelp,
            FlowOf::Scroll(n) => FlowOf::Scroll(n),
            FlowOf::PickHost => FlowOf::PickHost,
            FlowOf::PickSpace => FlowOf::PickSpace,
            FlowOf::DialHost(v) => FlowOf::DialHost(v@),
            FlowOf::StageSelected => FlowOf::StageSelected,
            FlowOf::OpenSelectedDiff => FlowOf::OpenSelectedDiff,
            FlowOf::RestartProcess => FlowOf::RestartProcess,
            FlowOf::ToggleLayout => FlowOf::ToggleLayout,
            FlowOf::Resize(g) => FlowOf::Resize(g),
            FlowOf::CopySelection => FlowOf::CopySelection,
            FlowOf::PasteImage => FlowOf::PasteImage,
            FlowOf::GitMenu => FlowOf::GitMenu,
            FlowOf::CloseStagePane => FlowOf::CloseStagePane,
            FlowOf::KillSelected => FlowOf::KillSelected,
            FlowOf::Control(c) => FlowOf::Control(c),
            FlowOf::BrowseHere => FlowOf::BrowseHere,
            FlowOf::AskCloseWorkspace => FlowOf::AskCloseWorkspace,
            FlowOf::GoTab(m) => FlowOf::GoTab(m),
            FlowOf::RunCommand(v) => FlowOf::RunCommand(v@),
        }
    }
}

/// What an optional flow asks for.
pub open spec fn opt_flow(f: Option<Flow>) -> Option<FlowModel> {
    match f {
        Some(f) => Some(f@),
        None => None,
    }
}

/// What a list is a list of.
#[verifier::ext_equal]
#[derive(Clone, Debug, PartialEq, Eq)]
pub enum ListKindOf<S> {
    SpawnAgent,
    Branch,
    Pick(PickTarget),
    Space,
    Browse { dir: S },
    GitGroups,
    GitGroup(MenuGroup),
    Host,
    Machine,
    Menu(MenuTarget),
    Theme,
    Links,
}

pub type ListKind = ListKindOf<String>;

pub type ListKindModel = ListKindOf<Seq<char>>;

impl View for ListKindOf<String> {
    type V = ListKindOf<Seq<char>>;

    open spec fn view(&self) -> ListKindOf<Seq<char>> {
        match *self {
            ListKindOf::SpawnAgent => ListKindOf::SpawnAgent,
            ListKindOf::Branch => ListKindOf::Branch,
            ListKindOf::Pick(t) => ListKindOf::Pick(t),
            ListKindOf::Space => ListKindOf::Space,
            ListKindOf::Browse { dir } => ListKindOf::Browse { dir: dir@ },
            ListKindOf::GitGroups => ListKindOf::GitGroups,
            ListKindOf::GitGroup(g) => ListKindOf::GitGroup(g),
            ListKindOf::Host => ListKindOf::Host,
            ListKindOf::Machine => ListKindOf::Machine,
            ListKindOf::Menu(t) => ListKindOf::Menu(t),
            ListKindOf::Theme => ListKindOf::Theme,
            ListKindOf::Links => ListKindOf::Links,
        }
    }
}

/// A list to choose from. Where it has values, a row's value is what acts and
/// its label is what reads.
#[verifier::ext_equal]
#[derive(Clone, Debug, PartialEq, Eq)]
pub struct ListOverlayOf<S, L> {
    pub title: S,
    pub items: L,
    pub values: Option<L>,
    pub sel: usize,
    pub kind: ListKindOf<S>,
}

pub type ListOverlay = ListOverlayOf<String, Vec<String>>;

pub type ListOverlayModel = ListOverlayOf<Seq<char>, Seq<Seq<char>>>;

/// The characters of each text of an optional list.
pub open spec fn opt_list(v: Option<Vec<String>>) -> Option<Seq<Seq<char>>> {
    match v {
        Some(v) => Some(texts(v@)),
        None => None,
    }
}

impl View for ListOverlayOf<String, Vec<String>> {
    type V = ListOverlayOf<Seq<char>, Seq<Seq<char>>>;

    open spec fn view(&self) -> ListOverlayOf<Seq<char>, Seq<Seq<char>>> {
        ListOverlayOf {
            title: self.title@,
            items: texts(self.items@),
            values: opt_list(self.values),
            sel: self.sel,
            kind: self.kind@,
        }
    }
}

/// What a yes-or-no question is about.
#[verifier::ext_equal]
#[derive(Clone, Debug, PartialEq, Eq)]
pub enum ConfirmKindOf<S> {
    Discard { path: S },
    DeleteFile { path: S },
    CloseWorkspace { id: SessionId, name: S },
    MenuAction,
    Pick { target: PickTarget, value: S, label: S },
    Update { version: S },
}

pub type ConfirmKind = ConfirmKindOf<String>;

pub type ConfirmKindModel = ConfirmKindOf<Seq<char>>;

impl View for ConfirmKindOf<String> {
    type V = ConfirmKindOf<Seq<char>>;

    open spec fn view(&self) -> ConfirmKindOf<Seq<char>> {
        match *self {
            ConfirmKindOf::Discard { path } => ConfirmKindOf::Discard { path: path@ },
            ConfirmKindOf::DeleteFile { path } => ConfirmKindOf::DeleteFile { path: path@ },
            ConfirmKindOf::CloseWorkspace { id, name } => ConfirmKindOf::CloseWorkspace {
                id,
                name: name@,
            },
            ConfirmKindOf::MenuAction => ConfirmKindOf::MenuAction,
            ConfirmKindOf::Pick { target, value, label } => ConfirmKindOf::Pick {
                target,
                value: value@,
                label: label@,
            },
            ConfirmKindOf::Update { version } => ConfirmKindOf::Update { version: version@ },
        }
    }
}

/// A yes-or-no question, and which answer is marked.
#[verifier::ext_equal]
#[derive(Clone, Debug, PartialEq, Eq)]
pub struct ConfirmOverlayOf<S> {
    pub title: S,
    pub header: S,
    pub yes: bool,
    pub kind: ConfirmKindOf<S>,
}

pub type ConfirmOverlay = ConfirmOverlayOf<String>;

pub type ConfirmOverlayModel = ConfirmOverlayOf<Seq<char>>;

impl View for ConfirmOverlayOf<String> {
    type V = ConfirmOverlayOf<Seq<char>>;

    open spec fn view(&self) -> ConfirmOverlayOf<Seq<char>> {
        ConfirmOverlayOf {
            title: self.title@,
            header: self.header@,
            yes: self.yes,
            kind: self.kind@,
        }
    }
}

/// What a line of text is asked for.
#[verifier::ext_equal]
#[derive(Clone, Debug, PartialEq, Eq)]
pub enum PromptKindOf<S> {
    Commit { all: bool },
    NewBranch,
    NewTag,
    NewWorktree,
    SshDestination,
    NewFolder { dir: S },
    Command,
}

pub type PromptKind = PromptKindOf<String>;

pub type PromptKindModel = PromptKindOf<Seq<char>>;

impl View for PromptKindOf<String> {
    type V = PromptKindOf<Seq<char>>;

    open spec fn view(&self) -> PromptKindOf<Seq<char>> {
        match *self {
            PromptKindOf::Commit { all } => PromptKindOf::Commit { all },
            PromptKindOf::NewBranch => PromptKindOf::NewBranch,
            PromptKindOf::NewTag => PromptKindOf::NewTag,
            PromptKindOf::NewWorktree => PromptKindOf::NewWorktree,
            PromptKindOf::SshDestination => PromptKindOf::SshDestination,
            PromptKindOf::NewFolder { dir } => PromptKindOf::NewFolder { dir: dir@ },
            PromptKindOf::Command => PromptKindOf::Command,
        }
    }
}

/// A line of text being typed. The cursor counts characters.
#[verifier::ext_equal]
#[derive(Clone, Debug, PartialEq, Eq)]
pub struct PromptOverlayOf<S> {
    pub title: S,
    pub text: S,
    pub cursor: usize,
    pub kind: PromptKindOf<S>,
    pub subtitle: Option<S>,
}

pub type PromptOverlay = PromptOverlayOf<String>;

pub type PromptOverlayModel = PromptOverlayOf<Seq<char>>;

impl View for PromptOverlayOf<String> {
    type V = PromptOverlayOf<Seq<char>>;

    open spec fn view(&self) -> PromptOverlayOf<Seq<char>> {
        PromptOverlayOf {
            title: self.title@,
            text: self.text@,
            cursor: self.cursor,
            kind: self.kind@,
            subtitle: opt_text(self.subtitle),
        }
    }
}

/// A place that a search found: a line of a file, or a file by its name.
#[verifier::ext_equal]
#[derive(Clone, Debug, PartialEq, Eq)]
pub struct SearchHitOf<S> {
    pub path: S,
    pub line: Option<u32>,
    pub preview: S,
}

pub type SearchHit = SearchHitOf<String>;

pub type SearchHitModel = SearchHitOf<Seq<char>>;

impl View for SearchHitOf<String> {
    type V = SearchHitOf<Seq<char>>;

    open spec fn view(&self) -> SearchHitOf<Seq<char>> {
        SearchHitOf { path: self.path@, line: self.line, preview: self.preview@ }
    }
}

/// What a list of hits holds.
pub open spec fn hits_model(v: Seq<SearchHit>) -> Seq<SearchHitModel> {
    Seq::new(v.len(), |i: int| v[i]@)
}

/// A search being typed, and what has been found for it so far.
#[verifier::ext_equal]
#[derive(Clone, Debug, PartialEq, Eq)]
pub struct SearchOverlayOf<S, H> {
    pub query: S,
    pub cursor: usize,
    pub hits: H,
    pub sel: usize,
    pub searching: bool,
}

pub type SearchOverlay = SearchOverlayOf<String, Vec<SearchHit>>;

pub type SearchOverlayModel = SearchOverlayOf<Seq<char>, Seq<SearchHitModel>>;

impl View for SearchOverlayOf<String, Vec<SearchHit>> {
    type V = SearchOverlayOf<Seq<char>, Seq<SearchHitModel>>;

    open spec fn view(&self) -> SearchOverlayOf<Seq<char>, Seq<SearchHitModel>> {
        SearchOverlayOf {
            query: self.query@,
            cursor: self.cursor,
            hits: hits_model(self.hits@),
            sel: self.sel,
            searching: self.searching,
        }
    }
}

/// A search as it opens.
pub open spec fn empty_search() -> SearchOverlayModel {
    SearchOverlayOf {
        query: Seq::empty(),
        cursor: 0,
        hits: Seq::empty(),
        sel: 0,
        searching: false,
    }
}

/// A search as it opens.
pub fn new_search() -> (s: SearchOverlay)
    ensures
        s@ == empty_search(),
{
    let s: SearchOverlay = SearchOverlayOf {
        query: String::new(),
        cursor: 0,
        hits: Vec::new(),
        sel: 0,
        searching: false,
    };
    assert(hits_model(s.hits@) =~= Seq::empty());
    s
}

/// A box over the workbench, which has the keyboard while it is open.
#[verifier::ext_equal]
#[derive(Clone, Debug, PartialEq, Eq)]
pub enum OverlayOf<S, L, H> {
    List(ListOverlayOf<S, L>),
    Confirm(ConfirmOverlayOf<S>),
    Prompt(PromptOverlayOf<S>),
    Search(SearchOverlayOf<S, H>),
}

pub type Overlay = OverlayOf<String, Vec<String>, Vec<SearchHit>>;

pub type OverlayModel = OverlayOf<Seq<char>, Seq<Seq<char>>, Seq<SearchHitModel>>;

impl View for OverlayOf<String, Vec<String>, Vec<SearchHit>> {
    type V = OverlayModel;

    open spec fn view(&self) -> OverlayModel {
        match *self {
            OverlayOf::List(l) => OverlayOf::List(l@),
            OverlayOf::Confirm(c) => OverlayOf::Confirm(c@),
            OverlayOf::Prompt(p) => OverlayOf::Prompt(p@),
            OverlayOf::Search(f) => OverlayOf::Search(f@),
        }
    }
}

/// What an optional box holds.
pub open spec fn opt_overlay(o: Option<Overlay>) -> Option<OverlayModel> {
    match o {
        Some(o) => Some(o@),
        None => None,
    }
}

/// The state of the screen that is this client's own: which page, where the
/// keyboard is, which rows the cursors are on, and what lies over it all.
#[verifier::ext_equal]
#[derive(Clone, Debug, PartialEq, Eq)]
pub struct BenchOf<S, L, H, P> {
    pub page: Page,
    pub focus: Focus,
    pub tab: usize,
    pub agent_sel: usize,
    pub proc_sel: usize,
    pub changes_sel: usize,
    pub all_agents_sel: usize,
    pub booth_compute_scroll: usize,
    pub staged: Option<PaneId>,
    pub overlay: Option<OverlayOf<S, L, H>>,
    pub flash: Option<S>,
    pub browse_daemon: Option<usize>,
    pub prefix_armed: bool,
    pub pending_menu_action: Option<MenuAction>,
    pub confirmed_menu_action: Option<MenuAction>,
    pub pinned_agent: Option<S>,
    pub zen: bool,
    pub layout: bool,
    /// The spaces in the order in which they are walked.
    pub spaces: P,
}

pub type Bench = BenchOf<String, Vec<String>, Vec<SearchHit>, Vec<Page>>;

pub type BenchModel = BenchOf<Seq<char>, Seq<Seq<char>>, Seq<SearchHitModel>, Seq<Page>>;

impl View for BenchOf<String, Vec<String>, Vec<SearchHit>, Vec<Page>> {
    type V = BenchModel;

    open spec fn view(&self) -> BenchModel {
        BenchOf {
            page: self.page,
            focus: self.focus,
            tab: self.tab,
            agent_sel: self.agent_sel,
            proc_sel: self.proc_sel,
            changes_sel: self.changes_sel,
            all_agents_sel: self.all_agents_sel,
            booth_compute_scroll: self.booth_compute_scroll,
            staged: self.staged,
            overlay: opt_overlay(self.overlay),
            flash: opt_text(self.flash),
            browse_daemon: self.browse_daemon,
            prefix_armed: self.prefix_armed,
            pending_menu_action: self.pending_menu_action,
            confirmed_menu_action: self.confirmed_menu_action,
            pinned_agent: opt_text(self.pinned_agent),
            zen: self.zen,
            layout: self.layout,
            spaces: self.spaces@,
        }
    }
}

/// A workbench as it opens: on the agents, with the keyboard on the stage.
pub open spec fn fresh_bench() -> BenchModel {
    BenchOf {
        page: Page::Agents,
        focus: Focus::Stage,
        tab: 0,
        agent_sel: 0,
        proc_sel: 0,
        changes_sel: 0,
        all_agents_sel: 0,
        booth_compute_scroll: 0,
        staged: None,
        overlay: None,
        flash: None,
        browse_daemon: None,
        prefix_armed: false,
        pending_menu_action: None,
        confirmed_menu_action: None,
        pinned_agent: None,
        zen: false,
        layout: false,
        spaces: seq![Page::Agents, Page::Files, Page::Docs, Page::Docker, Page::Git, Page::Usage],
    }
}

impl Default for BenchOf<String, Vec<String>, Vec<SearchHit>, Vec<Page>> {
    fn default() -> (b: Self)
        ensures
            b@ == fresh_bench(),
    {
        let mut spaces: Vec<Page> = Vec::new();
        spaces.push(Page::Agents);
        spaces.push(Page::Files);
        spaces.push(Page::Docs);
        spaces.push(Page::Docker);
        spaces.push(Page::Git);
        spaces.push(Page::Usage);
        let b: Bench = BenchOf {
            page: Page::Agents,
            focus: Focus::Stage,
            tab: 0,
            agent_sel: 0,
            proc_sel: 0,
            changes_sel: 0,
            all_agents_sel: 0,
            booth_compute_scroll: 0,
            staged: None,
            overlay: None,
            flash: None,
            browse_daemon: None,
            prefix_armed: false,
            pending_menu_action: None,
            confirmed_menu_action: None,
            pinned_agent: None,
            zen: false,
            layout: false,
            spaces,
        };
        assert(b.spaces@ =~= fresh_bench().spaces);
        b
    }
}

/// The pages with a tree, those with a pane that can be typed into, and those
/// that show a pane at all.
pub proof fn pages_show_what_they_are_for(page: Page)
    ensures
        page.is_tree() <==> page == Page::Files || page == Page::Docs,
        page.draws_stage() <==> page == Page::Booth || page == Page::Agents,
        page.shows_pane() <==> page == Page::Booth || page == Page::Agents || page == Page::Docker,
{
}

/// Pushing by force, throwing the working tree away and giving a sequence up
/// are asked about before they run; nothing else of the menu is. What was
/// picked is asked about where the pick deletes it.
pub proof fn what_destroys_is_asked_about(action: MenuAction, target: PickTarget)
    ensures
        action.needs_confirm() <==> action == MenuAction::PushForce || action
            == MenuAction::ResetHard || action == MenuAction::SequenceAbort,
        target.destroys() <==> target == PickTarget::DeleteBranch || target
            == PickTarget::StashDrop || target == PickTarget::TagDelete || target
            == PickTarget::RemoteRemove || target == PickTarget::RemoveWorktree,
{
}

/// What a commit did cannot be staged or thrown away; everything else of a
/// diff can.
pub proof fn a_commit_is_not_changed(path: Option<Seq<char>>, id: Seq<char>, summary: Seq<char>)
    ensures
        (DiffKindOf::Unstaged { path }).mutable(),
        (DiffKindOf::Staged { path }).mutable(),
        !(DiffKindOf::Commit { id, summary }).mutable(),
{
}

/// A workbench opens on the agents with the keyboard on the stage and nothing
/// over it, and walks six spaces in a fixed order.
pub proof fn a_workbench_opens_on_the_agents()
    ensures
        fresh_bench().page == Page::Agents,
        fresh_bench().focus == Focus::Stage,
        fresh_bench().tab == 0,
        fresh_bench().overlay is None,
        fresh_bench().staged is None,
        fresh_bench().flash is None,
        !fresh_bench().prefix_armed && !fresh_bench().layout && !fresh_bench().zen,
        fresh_bench().spaces.len() == 6,
        fresh_bench().spaces[0] == Page::Agents,
        fresh_bench().spaces[1] == Page::Files,
        fresh_bench().spaces[2] == Page::Docs,
        fresh_bench().spaces[3] == Page::Docker,
        fresh_bench().spaces[4] == Page::Git,
        fresh_bench().spaces[5] == Page::Usage,
        empty_search().query.len() == 0 && empty_search().cursor == 0 && empty_search().sel == 0
            && empty_search().hits.len() == 0,
{
}

} // verus!
