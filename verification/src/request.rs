//! What is asked of a machine: which route, with which method, and what is
//! sent along.
use vstd::prelude::*;

use crate::encode::{url_text, urlencode};
use crate::path::{worktree_at, worktree_path};
use crate::project::Workspace;
use crate::roster::Route;
use crate::text::{cat, cat3, decimal, index_named, read_index, to_decimal};
use crate::types::{
    Bench, BenchModel, BenchOf, DiffKind, DiffKindModel, DiffKindOf, GitAction, GitActionModel,
    GitActionOf, MenuAction, Page, PaneId, PickTarget, ResolveSide, SessionId,
};

verus! {

/// How a route is asked for.
#[derive(Clone, Copy, Debug, PartialEq, Eq, Structural)]
pub enum Method {
    Get,
    Post,
    Delete,
}

/// A value in what is sent along.
#[verifier::ext_equal]
#[derive(Clone, Debug, PartialEq, Eq)]
pub enum FieldOf<S> {
    Flag(bool),
    Text(S),
    Number(usize),
    Side(ResolveSide),
}

pub type Field = FieldOf<String>;

pub type FieldModel = FieldOf<Seq<char>>;

impl View for FieldOf<String> {
    type V = FieldOf<Seq<char>>;

    open spec fn view(&self) -> FieldOf<Seq<char>> {
        match *self {
            FieldOf::Flag(b) => FieldOf::Flag(b),
            FieldOf::Text(s) => FieldOf::Text(s@),
            FieldOf::Number(n) => FieldOf::Number(n),
            FieldOf::Side(s) => FieldOf::Side(s),
        }
    }
}

/// An object to send along: its fields by name, in order.
pub type Fields = Vec<(String, Field)>;

pub type FieldsModel = Seq<(Seq<char>, FieldModel)>;

/// What an object holds.
pub open spec fn fields_model(v: Seq<(String, Field)>) -> FieldsModel {
    Seq::new(v.len(), |i: int| (v[i].0@, v[i].1@))
}

/// What is sent along: nothing, an object, or the text of a file as it is.
#[verifier::ext_equal]
#[derive(Clone, Debug, PartialEq, Eq)]
pub enum BodyOf<S, F> {
    Nothing,
    Object(F),
    Bytes(S),
}

/// A request to a machine.
#[verifier::ext_equal]
#[derive(Clone, Debug, PartialEq, Eq)]
pub struct RequestOf<S, F> {
    pub method: Method,
    pub route: S,
    pub body: BodyOf<S, F>,
}

pub type Request = RequestOf<String, Fields>;

pub type RequestModel = RequestOf<Seq<char>, FieldsModel>;

impl View for RequestOf<String, Fields> {
    type V = RequestModel;

    open spec fn view(&self) -> RequestModel {
        RequestOf {
            method: self.method,
            route: self.route@,
            body: match self.body {
                BodyOf::Nothing => BodyOf::Nothing,
                BodyOf::Object(f) => BodyOf::Object(fields_model(f@)),
                BodyOf::Bytes(b) => BodyOf::Bytes(b@),
            },
        }
    }
}

/// A request, or what is said instead of making it.
pub open spec fn asked(r: Result<Request, String>) -> Result<RequestModel, Seq<char>> {
    match r {
        Ok(q) => Ok(q@),
        Err(e) => Err(e@),
    }
}

/// Something to read.
pub open spec fn get_of(route: Seq<char>) -> RequestModel {
    RequestOf { method: Method::Get, route, body: BodyOf::Nothing }
}

/// Something to do.
pub open spec fn post_of(route: Seq<char>, fields: FieldsModel) -> RequestModel {
    RequestOf { method: Method::Post, route, body: BodyOf::Object(fields) }
}

/// A text to store.
pub open spec fn upload_of(route: Seq<char>, contents: Seq<char>) -> RequestModel {
    RequestOf { method: Method::Post, route, body: BodyOf::Bytes(contents) }
}

/// Something to remove.
pub open spec fn delete_of(route: Seq<char>) -> RequestModel {
    RequestOf { method: Method::Delete, route, body: BodyOf::Nothing }
}

fn get(route: String) -> (q: Request)
    ensures
        q@ == get_of(route@),
{
    RequestOf { method: Method::Get, route, body: BodyOf::Nothing }
}

fn post(route: String, fields: Fields) -> (q: Request)
    ensures
        q@ == post_of(route@, fields_model(fields@)),
{
    RequestOf { method: Method::Post, route, body: BodyOf::Object(fields) }
}

fn delete(route: String) -> (q: Request)
    ensures
        q@ == delete_of(route@),
{
    RequestOf { method: Method::Delete, route, body: BodyOf::Nothing }
}

fn no_fields() -> (f: Fields)
    ensures
        fields_model(f@) == Seq::<(Seq<char>, FieldModel)>::empty(),
{
    let f: Fields = Vec::new();
    assert(fields_model(f@) =~= Seq::empty());
    f
}

fn with_field(f: Fields, name: &str, value: Field) -> (r: Fields)
    ensures
        fields_model(r@) == fields_model(f@).push((name@, value@)),
{
    let mut r = f;
    let ghost before = r@;
    r.push((name.to_owned(), value));
    assert(fields_model(r@) =~= fields_model(before).push((name@, value@)));
    r
}

fn one_field(name: &str, value: Field) -> (f: Fields)
    ensures
        fields_model(f@) == seq![(name@, value@)],
{
    let f = with_field(no_fields(), name, value);
    assert(fields_model(f@) =~= seq![(name@, value@)]);
    f
}

fn text_field(name: &str, value: &str) -> (f: Fields)
    ensures
        fields_model(f@) == seq![(name@, FieldOf::Text(value@))],
{
    one_field(name, Field::Text(value.to_owned()))
}

fn two_fields(a: &str, x: Field, b: &str, y: Field) -> (f: Fields)
    ensures
        fields_model(f@) == seq![(a@, x@), (b@, y@)],
{
    let f = with_field(one_field(a, x), b, y);
    assert(fields_model(f@) =~= seq![(a@, x@), (b@, y@)]);
    f
}

fn three_fields(a: &str, x: Field, b: &str, y: Field, c: &str, z: Field) -> (f: Fields)
    ensures
        fields_model(f@) == seq![(a@, x@), (b@, y@), (c@, z@)],
{
    let f = with_field(two_fields(a, x, b, y), c, z);
    assert(fields_model(f@) =~= seq![(a@, x@), (b@, y@), (c@, z@)]);
    f
}

/// The route of a workspace.
pub open spec fn workspace_route(id: SessionId) -> Seq<char> {
    "/v1/workspaces/"@ + decimal(id.0 as nat)
}

/// A route below that of a workspace.
pub open spec fn route_at(id: SessionId, tail: Seq<char>) -> Seq<char> {
    workspace_route(id) + "/"@ + tail
}

fn at(id: SessionId, tail: &str) -> (r: String)
    ensures
        r@ == route_at(id, tail@),
{
    let base = cat("/v1/workspaces/", to_decimal(id.0 as u128).as_str());
    cat3(base.as_str(), "/", tail)
}

/// A route below that of a workspace which names something in its query.
fn at_named(id: SessionId, tail: &str, value: &str) -> (r: String)
    ensures
        r@ == route_at(id, tail@ + url_text(value@)),
{
    at(id, cat(tail, urlencode(value).as_str()).as_str())
}

/// The word for something that needs a workspace where none is open.
pub open spec fn no_workspace<T>() -> Result<T, Seq<char>> {
    Err("no workspace open"@)
}

fn nothing_open<T>() -> (r: Result<T, String>)
    ensures
        r is Err,
        r->Err_0@ == "no workspace open"@,
{
    Err("no workspace open".to_owned())
}

/// What a git action asks of the workspace's machine.
pub open spec fn git_request(ws: Option<&Workspace>, action: GitActionModel) -> Result<
    RequestModel,
    Seq<char>,
> {
    match ws {
        None => no_workspace(),
        Some(w) => Ok(
            match action {
                GitActionOf::Stage(path) => post_of(
                    route_at(w.id, "changes/stage"@),
                    seq![("path"@, FieldOf::Text(path))],
                ),
                GitActionOf::Unstage(path) => post_of(
                    route_at(w.id, "changes/unstage"@),
                    seq![("path"@, FieldOf::Text(path))],
                ),
                GitActionOf::Discard(path) => post_of(
                    route_at(w.id, "changes/discard"@),
                    seq![("path"@, FieldOf::Text(path))],
                ),
                GitActionOf::Commit { message, all } => post_of(
                    route_at(
                        w.id,
                        if all {
                            "changes/commit-all"@
                        } else {
                            "changes/commit"@
                        },
                    ),
                    seq![("message"@, FieldOf::Text(message))],
                ),
                GitActionOf::Push => post_of(route_at(w.id, "git/push"@), Seq::empty()),
                GitActionOf::NewBranch(name) => post_of(
                    route_at(w.id, "checkout"@),
                    seq![("branch"@, FieldOf::Text(name)), ("create"@, FieldOf::Flag(true))],
                ),
                GitActionOf::NewTag(name) => post_of(
                    route_at(w.id, "git/tag"@),
                    seq![("name"@, FieldOf::Text(name))],
                ),
                GitActionOf::NewWorktree(branch) => post_of(
                    route_at(w.id, "git/worktree"@),
                    seq![
                        ("path"@, FieldOf::Text(worktree_at(w.cwd@, branch))),
                        ("branch"@, FieldOf::Text(branch)),
                        ("new_branch"@, FieldOf::Flag(true)),
                    ],
                ),
                GitActionOf::Resolve { path, take } => post_of(
                    route_at(w.id, "git/resolve"@),
                    seq![("path"@, FieldOf::Text(path)), ("take"@, FieldOf::Side(take))],
                ),
            },
        ),
    }
}

/// What a git action asks of the workspace's machine.
pub fn run_git(ws: Option<&Workspace>, action: &GitAction) -> (r: Result<Request, String>)
    ensures
        asked(r) == git_request(ws, action@),
{
    match ws {
        None => nothing_open(),
        Some(w) => Ok(
            match action {
                GitActionOf::Stage(path) => post(
                    at(w.id, "changes/stage"),
                    text_field("path", path.as_str()),
                ),
                GitActionOf::Unstage(path) => post(
                    at(w.id, "changes/unstage"),
                    text_field("path", path.as_str()),
                ),
                GitActionOf::Discard(path) => post(
                    at(w.id, "changes/discard"),
                    text_field("path", path.as_str()),
                ),
                GitActionOf::Commit { message, all } => post(
                    at(
                        w.id,
                        if *all {
                            "changes/commit-all"
                        } else {
                            "changes/commit"
                        },
                    ),
                    text_field("message", message.as_str()),
                ),
                GitActionOf::Push => post(at(w.id, "git/push"), no_fields()),
                GitActionOf::NewBranch(name) => post(
                    at(w.id, "checkout"),
                    two_fields("branch", Field::Text(name.clone()), "create", Field::Flag(true)),
                ),
                GitActionOf::NewTag(name) => post(
                    at(w.id, "git/tag"),
                    text_field("name", name.as_str()),
                ),
                GitActionOf::NewWorktree(branch) => post(
                    at(w.id, "git/worktree"),
                    three_fields(
                        "path",
                        Field::Text(worktree_path(w.cwd.as_str(), branch.as_str())),
                        "branch",
                        Field::Text(branch.clone()),
                        "new_branch",
                        Field::Flag(true),
                    ),
                ),
                GitActionOf::Resolve { path, take } => post(
                    at(w.id, "git/resolve"),
                    two_fields("path", Field::Text(path.clone()), "take", Field::Side(*take)),
                ),
            },
        ),
    }
}

/// The stash that a text names: the latest where the text is no number.
pub open spec fn stash_index(value: Seq<char>) -> usize {
    match index_named(value) {
        Some(i) => i,
        None => 0,
    }
}

/// What a chosen row of a picker asks of the workspace's machine.
pub open spec fn pick_request(ws: Option<&Workspace>, target: PickTarget, value: Seq<char>) -> Result<
    RequestModel,
    Seq<char>,
> {
    match ws {
        None => no_workspace(),
        Some(w) => Ok(
            match target {
                PickTarget::Checkout => post_of(
                    route_at(w.id, "checkout"@),
                    seq![("branch"@, FieldOf::Text(value))],
                ),
                PickTarget::Revert => post_of(
                    route_at(w.id, "git/revert"@),
                    seq![("rev"@, FieldOf::Text(value))],
                ),
                PickTarget::CherryPick => post_of(
                    route_at(w.id, "git/cherry-pick"@),
                    seq![("rev"@, FieldOf::Text(value))],
                ),
                PickTarget::DeleteBranch => delete_of(
                    route_at(w.id, "git/branch?name="@ + url_text(value)),
                ),
                PickTarget::Merge => post_of(
                    route_at(w.id, "git/merge"@),
                    seq![("branch"@, FieldOf::Text(value))],
                ),
                PickTarget::Rebase => post_of(
                    route_at(w.id, "git/rebase"@),
                    seq![("onto"@, FieldOf::Text(value))],
                ),
                PickTarget::StashPop => post_of(
                    route_at(w.id, "git/stash/apply"@),
                    seq![
                        ("index"@, FieldOf::Number(stash_index(value))),
                        ("pop"@, FieldOf::Flag(true)),
                    ],
                ),
                PickTarget::StashDrop => delete_of(
                    route_at(w.id, "git/stash?index="@ + url_text(value)),
                ),
                PickTarget::TagDelete => delete_of(
                    route_at(w.id, "git/tag?name="@ + url_text(value)),
                ),
                PickTarget::RemoteRemove => delete_of(
                    route_at(w.id, "git/remote?name="@ + url_text(value)),
                ),
                PickTarget::OpenWorktree => post_of(
                    "/v1/workspaces"@,
                    seq![("path"@, FieldOf::Text(value))],
                ),
                PickTarget::RemoveWorktree => delete_of(
                    route_at(w.id, "git/worktree?path="@ + url_text(value)),
                ),
            },
        ),
    }
}

/// What a chosen row of a picker asks of the workspace's machine, once it has
/// been confirmed where it has to be.
pub fn run_pick_confirmed(ws: Option<&Workspace>, target: PickTarget, value: &str) -> (r: Result<
    Request,
    String,
>)
    ensures
        asked(r) == pick_request(ws, target, value@),
{
    match ws {
        None => nothing_open(),
        Some(w) => Ok(
            match target {
                PickTarget::Checkout => post(at(w.id, "checkout"), text_field("branch", value)),
                PickTarget::Revert => post(at(w.id, "git/revert"), text_field("rev", value)),
                PickTarget::CherryPick => post(
                    at(w.id, "git/cherry-pick"),
                    text_field("rev", value),
                ),
                PickTarget::DeleteBranch => delete(at_named(w.id, "git/branch?name=", value)),
                PickTarget::Merge => post(at(w.id, "git/merge"), text_field("branch", value)),
                PickTarget::Rebase => post(at(w.id, "git/rebase"), text_field("onto", value)),
                PickTarget::StashPop => {
                    let index: usize = match read_index(value) {
                        Some(i) => i,
                        None => 0,
                    };
                    post(
                        at(w.id, "git/stash/apply"),
                        two_fields("index", Field::Number(index), "pop", Field::Flag(true)),
                    )
                },
                PickTarget::StashDrop => delete(at_named(w.id, "git/stash?index=", value)),
                PickTarget::TagDelete => delete(at_named(w.id, "git/tag?name=", value)),
                PickTarget::RemoteRemove => delete(at_named(w.id, "git/remote?name=", value)),
                PickTarget::OpenWorktree => post(
                    "/v1/workspaces".to_owned(),
                    text_field("path", value),
                ),
                PickTarget::RemoveWorktree => delete(at_named(w.id, "git/worktree?path=", value)),
            },
        ),
    }
}

/// The route, below that of the workspace, and the object of a row of the git
/// menu that is carried out as it stands.
pub open spec fn menu_route(action: MenuAction) -> Option<(Seq<char>, FieldsModel)> {
    match action {
        MenuAction::Fetch => Some(
            (
                "git/fetch"@,
                seq![("all"@, FieldOf::Flag(true)), ("prune"@, FieldOf::Flag(true))],
            ),
        ),
        MenuAction::Pull => Some(("git/pull"@, Seq::empty())),
        MenuAction::PullRebase => Some(("git/pull"@, seq![("rebase"@, FieldOf::Flag(true))])),
        MenuAction::Push => Some(("git/push"@, Seq::empty())),
        MenuAction::PushUpstream => Some(
            ("git/push"@, seq![("set_upstream"@, FieldOf::Flag(true))]),
        ),
        MenuAction::PushForce => Some(("git/push"@, seq![("force"@, FieldOf::Flag(true))])),
        MenuAction::StashPush => Some(("git/stash"@, Seq::empty())),
        MenuAction::StashPop => Some(("git/stash/apply"@, seq![("pop"@, FieldOf::Flag(true))])),
        MenuAction::SequenceContinue => Some(
            ("git/sequence"@, seq![("action"@, FieldOf::Text("continue"@))]),
        ),
        MenuAction::SequenceAbort => Some(
            ("git/sequence"@, seq![("action"@, FieldOf::Text("abort"@))]),
        ),
        MenuAction::SequenceSkip => Some(
            ("git/sequence"@, seq![("action"@, FieldOf::Text("skip"@))]),
        ),
        MenuAction::Amend => Some(("git/amend"@, Seq::empty())),
        MenuAction::ResetSoft => Some(
            (
                "git/reset"@,
                seq![("rev"@, FieldOf::Text("HEAD~1"@)), ("mode"@, FieldOf::Text("soft"@))],
            ),
        ),
        MenuAction::ResetHard => Some(("git/reset"@, seq![("mode"@, FieldOf::Text("hard"@))])),
        MenuAction::WorktreePrune => Some(("git/worktree/prune"@, Seq::empty())),
        _ => None,
    }
}

/// The route and the object of a row of the git menu that is carried out as it
/// stands; nothing for one that has to be asked more about.
pub fn menu_request(action: MenuAction) -> (r: Option<(String, Fields)>)
    ensures
        match r {
            Some((route, body)) => menu_route(action) == Some((route@, fields_model(body@))),
            None => menu_route(action) is None,
        },
{
    match action {
        MenuAction::Fetch => Some(
            (
                "git/fetch".to_owned(),
                two_fields("all", Field::Flag(true), "prune", Field::Flag(true)),
            ),
        ),
        MenuAction::Pull => Some(("git/pull".to_owned(), no_fields())),
        MenuAction::PullRebase => Some(
            ("git/pull".to_owned(), one_field("rebase", Field::Flag(true))),
        ),
        MenuAction::Push => Some(("git/push".to_owned(), no_fields())),
        MenuAction::PushUpstream => Some(
            ("git/push".to_owned(), one_field("set_upstream", Field::Flag(true))),
        ),
        MenuAction::PushForce => Some(
            ("git/push".to_owned(), one_field("force", Field::Flag(true))),
        ),
        MenuAction::StashPush => Some(("git/stash".to_owned(), no_fields())),
        MenuAction::StashPop => Some(
            ("git/stash/apply".to_owned(), one_field("pop", Field::Flag(true))),
        ),
        MenuAction::SequenceContinue => Some(
            ("git/sequence".to_owned(), text_field("action", "continue")),
        ),
        MenuAction::SequenceAbort => Some(
            ("git/sequence".to_owned(), text_field("action", "abort")),
        ),
        MenuAction::SequenceSkip => Some(("git/sequence".to_owned(), text_field("action", "skip"))),
        MenuAction::Amend => Some(("git/amend".to_owned(), no_fields())),
        MenuAction::ResetSoft => Some(
            (
                "git/reset".to_owned(),
                two_fields(
                    "rev",
                    Field::Text("HEAD~1".to_owned()),
                    "mode",
                    Field::Text("soft".to_owned()),
                ),
            ),
        ),
        MenuAction::ResetHard => Some(("git/reset".to_owned(), text_field("mode", "hard"))),
        MenuAction::WorktreePrune => Some(("git/worktree/prune".to_owned(), no_fields())),
        _ => None,
    }
}

/// What posts to a route of the open workspace.
pub open spec fn workspace_post(ws: Option<&Workspace>, tail: Seq<char>, fields: FieldsModel) -> Result<
    RequestModel,
    Seq<char>,
> {
    match ws {
        None => no_workspace(),
        Some(w) => Ok(post_of(route_at(w.id, tail), fields)),
    }
}

/// Posts to a route of the open workspace.
pub fn post_git(ws: Option<&Workspace>, tail: &str, fields: Fields) -> (r: Result<Request, String>)
    ensures
        asked(r) == workspace_post(ws, tail@, fields_model(fields@)),
{
    match ws {
        None => nothing_open(),
        Some(w) => Ok(post(at(w.id, tail), fields)),
    }
}

/// Fetches from a remote, and drops what it no longer has.
pub fn fetch_remote(ws: Option<&Workspace>, remote: &str) -> (r: Result<Request, String>)
    ensures
        asked(r) == workspace_post(
            ws,
            "git/fetch"@,
            seq![("remote"@, FieldOf::Text(remote@)), ("prune"@, FieldOf::Flag(true))],
        ),
{
    post_git(
        ws,
        "git/fetch",
        two_fields("remote", Field::Text(remote.to_owned()), "prune", Field::Flag(true)),
    )
}

/// What a search for a text asks.
pub open spec fn search_request(ws: Option<&Workspace>, query: Seq<char>) -> Result<
    RequestModel,
    Seq<char>,
> {
    match ws {
        None => no_workspace(),
        Some(w) => Ok(get_of(route_at(w.id, "search?q="@ + url_text(query)))),
    }
}

/// What a search for a text asks.
pub fn fetch_search(ws: Option<&Workspace>, query: &str) -> (r: Result<Request, String>)
    ensures
        asked(r) == search_request(ws, query@),
{
    match ws {
        None => nothing_open(),
        Some(w) => Ok(get(at_named(w.id, "search?q=", query))),
    }
}

/// What the list of a folder asks. The documents page leaves out what is not a
/// document.
pub open spec fn dir_request(ws: Option<&Workspace>, page: Page, dir: Seq<char>) -> Result<
    RequestModel,
    Seq<char>,
> {
    match ws {
        None => no_workspace(),
        Some(w) => Ok(
            get_of(
                route_at(
                    w.id,
                    "tree?path="@ + url_text(dir) + (if page is Docs {
                        "&filter=docs"@
                    } else {
                        ""@
                    }),
                ),
            ),
        ),
    }
}

/// What the list of a folder asks.
pub fn fetch_dir(ws: Option<&Workspace>, page: Page, dir: &str) -> (r: Result<Request, String>)
    ensures
        asked(r) == dir_request(ws, page, dir@),
{
    match ws {
        None => nothing_open(),
        Some(w) => {
            let filter = if page == Page::Docs {
                "&filter=docs"
            } else {
                ""
            };
            Ok(get(at(w.id, cat3("tree?path=", urlencode(dir).as_str(), filter).as_str())))
        },
    }
}

/// The route of a file of a workspace.
pub open spec fn file_route(id: SessionId, path: Seq<char>) -> Seq<char> {
    route_at(id, "file?path="@ + url_text(path))
}

/// What the text of a file asks.
pub fn fetch_file(ws: Option<&Workspace>, path: &str) -> (r: Result<Request, String>)
    ensures
        asked(r) == (match ws {
            None => no_workspace(),
            Some(w) => Ok(get_of(file_route(w.id, path@))),
        }),
{
    match ws {
        None => nothing_open(),
        Some(w) => Ok(get(at_named(w.id, "file?path=", path))),
    }
}

/// What saving a file asks: its text is sent as it is.
pub fn save_file(ws: Option<&Workspace>, path: &str, contents: &str) -> (r: Result<Request, String>)
    ensures
        asked(r) == (match ws {
            None => no_workspace(),
            Some(w) => Ok(
                upload_of(route_at(w.id, "upload?path="@ + url_text(path@)), contents@),
            ),
        }),
{
    match ws {
        None => nothing_open(),
        Some(w) => Ok(
            RequestOf {
                method: Method::Post,
                route: at_named(w.id, "upload?path=", path),
                body: BodyOf::Bytes(contents.to_owned()),
            },
        ),
    }
}

/// What deleting a file asks.
pub fn delete_file(ws: Option<&Workspace>, path: &str) -> (r: Result<Request, String>)
    ensures
        asked(r) == (match ws {
            None => no_workspace(),
            Some(w) => Ok(delete_of(file_route(w.id, path@))),
        }),
{
    match ws {
        None => nothing_open(),
        Some(w) => Ok(delete(at_named(w.id, "file?path=", path))),
    }
}

/// The text of an optional path.
pub open spec fn path_or_all(path: Option<Seq<char>>) -> Seq<char> {
    match path {
        Some(p) => p,
        None => ""@,
    }
}

/// What a diff asks: of the working tree, of what is staged, or of a commit.
pub open spec fn diff_request(ws: Option<&Workspace>, kind: DiffKindModel) -> Result<
    RequestModel,
    Seq<char>,
> {
    match ws {
        None => no_workspace(),
        Some(w) => Ok(
            get_of(
                route_at(
                    w.id,
                    match kind {
                        DiffKindOf::Unstaged { path } => "diff?path="@ + url_text(
                            path_or_all(path),
                        ),
                        DiffKindOf::Staged { path } => "diff?kind=staged&path="@ + url_text(
                            path_or_all(path),
                        ),
                        DiffKindOf::Commit { id, .. } => "show?id="@ + url_text(id),
                    },
                ),
            ),
        ),
    }
}

/// What a diff asks.
pub fn fetch_diff(ws: Option<&Workspace>, kind: &DiffKind) -> (r: Result<Request, String>)
    ensures
        asked(r) == diff_request(ws, kind@),
{
    match ws {
        None => nothing_open(),
        Some(w) => Ok(
            get(
                match kind {
                    DiffKindOf::Unstaged { path } => match path {
                        Some(p) => at_named(w.id, "diff?path=", p.as_str()),
                        None => at_named(w.id, "diff?path=", ""),
                    },
                    DiffKindOf::Staged { path } => match path {
                        Some(p) => at_named(w.id, "diff?kind=staged&path=", p.as_str()),
                        None => at_named(w.id, "diff?kind=staged&path=", ""),
                    },
                    DiffKindOf::Commit { id, .. } => at_named(w.id, "show?id=", id.as_str()),
                },
            ),
        ),
    }
}

/// What applying a patch asks: to what, and whether to take it back out.
pub fn apply_diff(ws: Option<&Workspace>, patch: &str, target: &str, reverse: bool) -> (r: Result<
    Request,
    String,
>)
    ensures
        asked(r) == workspace_post(
            ws,
            "git/apply"@,
            seq![
                ("patch"@, FieldOf::Text(patch@)),
                ("target"@, FieldOf::Text(target@)),
                ("reverse"@, FieldOf::Flag(reverse)),
            ],
        ),
{
    post_git(
        ws,
        "git/apply",
        three_fields(
            "patch",
            Field::Text(patch.to_owned()),
            "target",
            Field::Text(target.to_owned()),
            "reverse",
            Field::Flag(reverse),
        ),
    )
}

/// The first pane of a list that was not in it before.
pub open spec fn first_new(before: Seq<PaneId>, now: Seq<PaneId>) -> Option<PaneId>
    decreases now.len(),
{
    if now.len() == 0 {
        None
    } else if !before.contains(now[0]) {
        Some(now[0])
    } else {
        first_new(before, now.skip(1))
    }
}

fn has_pane(v: &Vec<PaneId>, pane: PaneId) -> (r: bool)
    ensures
        r == v@.contains(pane),
{
    let mut i: usize = 0;
    while i < v.len()
        invariant
            i <= v@.len(),
            forall|j: int| 0 <= j < i ==> v@[j] != pane,
        decreases v@.len() - i,
    {
        if v[i] == pane {
            return true;
        }
        i = i + 1;
    }
    false
}

/// The first pane of a list that was not in it before.
pub fn new_pane(before: &Vec<PaneId>, now: &Vec<PaneId>) -> (r: Option<PaneId>)
    ensures
        r == first_new(before@, now@),
{
    let mut i: usize = 0;
    assert(now@.skip(0) =~= now@);
    while i < now.len()
        invariant
            i <= now@.len(),
            first_new(before@, now@.skip(i as int)) == first_new(before@, now@),
        decreases now@.len() - i,
    {
        assert(now@.skip(i as int)[0] == now@[i as int]);
        assert(now@.skip(i as int).skip(1) =~= now@.skip(i as int + 1));
        if !has_pane(before, now[i]) {
            return Some(now[i]);
        }
        i = i + 1;
    }
    None
}

/// The pane that is found was not there before, and is there now.
pub proof fn a_new_pane_is_new(before: Seq<PaneId>, now: Seq<PaneId>)
    ensures
        match first_new(before, now) {
            Some(p) => now.contains(p) && !before.contains(p),
            None => forall|i: int| 0 <= i < now.len() ==> before.contains(#[trigger] now[i]),
        },
    decreases now.len(),
{
    if now.len() > 0 && before.contains(now[0]) {
        let rest = now.skip(1);
        a_new_pane_is_new(before, rest);
        match first_new(before, rest) {
            Some(p) => {
                let i = choose|i: int| 0 <= i < rest.len() && rest[i] == p;
                assert(now[i + 1] == p);
            },
            None => {
                assert forall|i: int| 0 <= i < now.len() implies before.contains(
                    #[trigger] now[i],
                ) by {
                    if i > 0 {
                        assert(rest[i - 1] == now[i]);
                    }
                }
            },
        }
    }
}

/// How often a list is read in the hope that what was just started is in it.
pub const ARRIVAL_TRIES: usize = 40;

/// Whether something that was just started has arrived.
#[verifier::ext_equal]
#[derive(Clone, Debug, PartialEq, Eq)]
pub enum ArrivalOf<S> {
    /// It is here.
    Here(PaneId),
    /// Not yet: read the list again in a moment.
    Later,
    /// It has been waited for long enough.
    Never(S),
}

pub type Arrival = ArrivalOf<String>;

impl View for ArrivalOf<String> {
    type V = ArrivalOf<Seq<char>>;

    open spec fn view(&self) -> ArrivalOf<Seq<char>> {
        match *self {
            ArrivalOf::Here(p) => ArrivalOf::Here(p),
            ArrivalOf::Later => ArrivalOf::Later,
            ArrivalOf::Never(s) => ArrivalOf::Never(s@),
        }
    }
}

/// Whether something that was just started, an agent or else a process, has
/// arrived after its list has been read `tries` times.
pub open spec fn arrived(
    before: Seq<PaneId>,
    now: Seq<PaneId>,
    tries: usize,
    name: Seq<char>,
    agent: bool,
) -> ArrivalOf<Seq<char>> {
    match first_new(before, now) {
        Some(p) => ArrivalOf::Here(p),
        None => if tries >= ARRIVAL_TRIES {
            ArrivalOf::Never(
                name + (if agent {
                    " did not appear in the agent list"@
                } else {
                    " did not appear in the process list"@
                }),
            )
        } else {
            ArrivalOf::Later
        },
    }
}

/// Whether something that was just started, an agent or else a process, has
/// arrived after its list has been read `tries` times.
pub fn arrival(
    before: &Vec<PaneId>,
    now: &Vec<PaneId>,
    tries: usize,
    name: &str,
    agent: bool,
) -> (r: Arrival)
    ensures
        r@ == arrived(before@, now@, tries, name@, agent),
{
    match new_pane(before, now) {
        Some(p) => Arrival::Here(p),
        None => if tries >= ARRIVAL_TRIES {
            Arrival::Never(
                cat(
                    name,
                    if agent {
                        " did not appear in the agent list"
                    } else {
                        " did not appear in the process list"
                    },
                ),
            )
        } else {
            Arrival::Later
        },
    }
}

/// A list to read before and after something is started, and what starts it.
#[verifier::ext_equal]
#[derive(Clone, Debug, PartialEq, Eq)]
pub struct StartOf<Q> {
    pub list: Q,
    pub start: Q,
}

pub type Start = StartOf<Request>;

/// What starting something asks, or what is said instead.
pub open spec fn started(r: Result<Start, String>) -> Result<StartOf<RequestModel>, Seq<char>> {
    match r {
        Ok(s) => Ok(StartOf { list: s.list@, start: s.start@ }),
        Err(e) => Err(e@),
    }
}

/// What spawning an agent asks.
pub open spec fn agent_start(ws: Option<&Workspace>, name: Seq<char>) -> Result<
    StartOf<RequestModel>,
    Seq<char>,
> {
    match ws {
        None => Err("no workspace to act in"@),
        Some(w) => Ok(
            StartOf {
                list: get_of(route_at(w.id, "agents"@)),
                start: post_of(
                    route_at(w.id, "agents"@),
                    seq![("type"@, FieldOf::Text(name))],
                ),
            },
        ),
    }
}

/// What spawning an agent asks.
pub fn spawn_agent(ws: Option<&Workspace>, name: &str) -> (r: Result<Start, String>)
    ensures
        started(r) == agent_start(ws, name@),
{
    match ws {
        None => Err("no workspace to act in".to_owned()),
        Some(w) => Ok(
            StartOf {
                list: get(at(w.id, "agents")),
                start: post(at(w.id, "agents"), text_field("type", name)),
            },
        ),
    }
}

/// What running a command asks.
pub open spec fn process_start(ws: Option<&Workspace>, name: Seq<char>, command: Seq<char>) -> Result<
    StartOf<RequestModel>,
    Seq<char>,
> {
    match ws {
        None => no_workspace(),
        Some(w) => Ok(
            StartOf {
                list: get_of(route_at(w.id, "processes"@)),
                start: post_of(
                    route_at(w.id, "processes"@),
                    seq![("name"@, FieldOf::Text(name)), ("command"@, FieldOf::Text(command))],
                ),
            },
        ),
    }
}

/// What running a command asks.
pub fn run_process(ws: Option<&Workspace>, name: &str, command: &str) -> (r: Result<Start, String>)
    ensures
        started(r) == process_start(ws, name@, command@),
{
    match ws {
        None => nothing_open(),
        Some(w) => Ok(
            StartOf {
                list: get(at(w.id, "processes")),
                start: post(
                    at(w.id, "processes"),
                    two_fields(
                        "name",
                        Field::Text(name.to_owned()),
                        "command",
                        Field::Text(command.to_owned()),
                    ),
                ),
            },
        ),
    }
}

/// The route of a pane of a workspace.
pub open spec fn pane_route(id: SessionId, pane: PaneId) -> Seq<char> {
    route_at(id, "processes/"@ + decimal(pane.0 as nat))
}

/// What killing a pane asks, of one of `machines` machines.
pub open spec fn kill_request(machines: int, to: Route) -> Result<RequestModel, Seq<char>> {
    if to.daemon < machines {
        Ok(delete_of(pane_route(to.workspace, to.pane)))
    } else {
        Err("that machine has gone"@)
    }
}

/// What killing a pane asks, of one of `machines` machines.
pub fn kill_pane(machines: usize, to: Route) -> (r: Result<Request, String>)
    ensures
        asked(r) == kill_request(machines as int, to),
{
    if to.daemon < machines {
        let tail = cat("processes/", to_decimal(to.pane.0 as u128).as_str());
        Ok(delete(at(to.workspace, tail.as_str())))
    } else {
        Err("that machine has gone".to_owned())
    }
}

/// Where a pane of the open workspace is killed.
pub fn kill_process(ws: Option<&Workspace>, daemon: usize, pane: PaneId) -> (r: Result<Route, String>)
    ensures
        match r {
            Ok(to) => ws is Some && to == (Route { daemon, workspace: ws->0.id, pane }),
            Err(e) => ws is None && e@ == "no workspace open"@,
        },
{
    match ws {
        None => nothing_open(),
        Some(w) => Ok(Route { daemon, workspace: w.id, pane }),
    }
}

/// What restarting a process asks.
pub fn restart_pane(id: SessionId, pane: PaneId) -> (q: Request)
    ensures
        q@ == post_of(
            route_at(id, "processes/"@ + decimal(pane.0 as nat) + "/restart"@),
            Seq::empty(),
        ),
{
    let tail = cat3("processes/", to_decimal(pane.0 as u128).as_str(), "/restart");
    post(at(id, tail.as_str()), no_fields())
}

/// What restarting the process under the cursor asks, and which pane it is.
pub open spec fn restart_request(ws: Option<&Workspace>, sel: usize) -> Result<
    (RequestModel, PaneId),
    Seq<char>,
> {
    match ws {
        None => no_workspace(),
        Some(w) => if sel < w.processes@.len() {
            let pane = w.processes@[sel as int];
            Ok(
                (
                    post_of(
                        route_at(
                            w.id,
                            "processes/"@ + decimal(pane.0 as nat) + "/restart"@,
                        ),
                        Seq::empty(),
                    ),
                    pane,
                ),
            )
        } else {
            Err("no process selected"@)
        },
    }
}

/// What restarting the process under the cursor asks, and which pane it is.
pub fn restart_process(ws: Option<&Workspace>, sel: usize) -> (r: Result<(Request, PaneId), String>)
    ensures
        (match r {
            Ok((q, p)) => Ok((q@, p)),
            Err(e) => Err(e@),
        }) == restart_request(ws, sel),
{
    match ws {
        None => nothing_open(),
        Some(w) => if sel < w.processes.len() {
            let pane = w.processes[sel];
            Ok((restart_pane(w.id, pane), pane))
        } else {
            Err("no process selected".to_owned())
        },
    }
}

/// What becomes of the view once a process has been restarted: if its old pane
/// was on the stage, that pane is gone.
pub open spec fn restarted(v: BenchModel, pane: PaneId) -> BenchModel {
    if v.staged == Some(pane) {
        BenchOf { staged: None, ..v }
    } else {
        v
    }
}

/// Lets go of a pane that has been restarted.
pub fn let_restarted_go(view: &mut Bench, pane: PaneId)
    ensures
        final(view)@ == restarted(old(view)@, pane),
{
    if let Some(p) = view.staged {
        if p == pane {
            view.staged = None;
        }
    }
}

/// What posting one text to a route of a workspace asks.
pub fn post_text(id: SessionId, tail: &str, name: &str, value: &str) -> (q: Request)
    ensures
        q@ == post_of(route_at(id, tail@), seq![(name@, FieldOf::Text(value@))]),
{
    post(at(id, tail), text_field(name, value))
}

/// What closing a workspace asks.
pub fn close_workspace(id: SessionId) -> (q: Request)
    ensures
        q@ == delete_of(workspace_route(id)),
{
    delete(cat("/v1/workspaces/", to_decimal(id.0 as u128).as_str()))
}

/// What the folders below one ask; of the machine's own choice where none is
/// named.
pub open spec fn browse_request(dir: Seq<char>) -> RequestModel {
    get_of(
        if dir.len() == 0 {
            "/v1/fs"@
        } else {
            "/v1/fs?path="@ + url_text(dir)
        },
    )
}

/// What the folders below one ask.
pub fn open_browser(dir: &str) -> (q: Request)
    ensures
        q@ == browse_request(dir@),
{
    if dir.unicode_len() == 0 {
        get("/v1/fs".to_owned())
    } else {
        get(cat("/v1/fs?path=", urlencode(dir).as_str()))
    }
}

/// What making a folder asks.
pub fn make_folder(dir: &str, name: &str) -> (q: Request)
    ensures
        q@ == post_of(
            "/v1/fs/mkdir"@,
            seq![("path"@, FieldOf::Text(dir@)), ("name"@, FieldOf::Text(name@))],
        ),
{
    post(
        "/v1/fs/mkdir".to_owned(),
        two_fields("path", Field::Text(dir.to_owned()), "name", Field::Text(name.to_owned())),
    )
}

/// What opening a folder as a workspace asks.
pub fn open_workspace(path: &str) -> (q: Request)
    ensures
        q@ == post_of("/v1/workspaces"@, seq![("path"@, FieldOf::Text(path@))]),
{
    post("/v1/workspaces".to_owned(), text_field("path", path))
}

/// What the agents that a machine can spawn ask.
pub fn list_agents() -> (q: Request)
    ensures
        q@ == get_of("/v1/agents"@),
{
    get("/v1/agents".to_owned())
}

/// What the usage page asks.
pub fn read_usage() -> (q: Request)
    ensures
        q@ == get_of("/v1/usage"@),
{
    get("/v1/usage".to_owned())
}

/// What a list to pick from asks of the open workspace.
pub open spec fn listed(ws: Option<&Workspace>, tail: Seq<char>) -> Result<RequestModel, Seq<char>> {
    match ws {
        None => no_workspace(),
        Some(w) => Ok(get_of(route_at(w.id, tail))),
    }
}

/// What a list of the open workspace asks, by its route.
pub fn read_list(ws: Option<&Workspace>, tail: &str) -> (r: Result<Request, String>)
    ensures
        asked(r) == listed(ws, tail@),
{
    match ws {
        None => nothing_open(),
        Some(w) => Ok(get(at(w.id, tail))),
    }
}

/// Everything that the git page reads at once.
#[verifier::ext_equal]
#[derive(Clone, Debug, PartialEq, Eq)]
pub struct GitReadsOf<Q> {
    pub log: Q,
    pub branches: Q,
    pub tags: Q,
    pub stashes: Q,
    pub remotes: Q,
    pub worktrees: Q,
}

pub type GitReads = GitReadsOf<Request>;

/// Everything that the git page reads at once. What part of the history is
/// meant is said at the end of the query.
pub open spec fn git_reads(id: SessionId, scope: Seq<char>) -> GitReadsOf<RequestModel> {
    GitReadsOf {
        log: get_of(route_at(id, "git/log?limit=200&"@ + scope)),
        branches: get_of(route_at(id, "branches"@)),
        tags: get_of(route_at(id, "git/tags"@)),
        stashes: get_of(route_at(id, "git/stashes"@)),
        remotes: get_of(route_at(id, "git/remotes"@)),
        worktrees: get_of(route_at(id, "git/worktrees"@)),
    }
}

/// Everything that the git page reads at once.
pub fn read_git(id: SessionId, scope: &str) -> (r: GitReads)
    ensures
        (GitReadsOf {
            log: r.log@,
            branches: r.branches@,
            tags: r.tags@,
            stashes: r.stashes@,
            remotes: r.remotes@,
            worktrees: r.worktrees@,
        }) == git_reads(id, scope@),
{
    GitReadsOf {
        log: get(at(id, cat("git/log?limit=200&", scope).as_str())),
        branches: get(at(id, "branches")),
        tags: get(at(id, "git/tags")),
        stashes: get(at(id, "git/stashes")),
        remotes: get(at(id, "git/remotes")),
        worktrees: get(at(id, "git/worktrees")),
    }
}

/// Committing posts the message to the route that commits what is staged, or
/// to the one that commits everything where everything was asked for.
pub proof fn a_commit_takes_what_is_staged_or_all(w: &Workspace, message: Seq<char>)
    ensures
        git_request(Some(w), GitActionOf::Commit { message, all: false }) == Ok::<RequestModel, Seq<char>>(
            RequestOf {
                method: Method::Post,
                route: "/v1/workspaces/"@ + decimal(w.id.0 as nat) + "/"@ + "changes/commit"@,
                body: BodyOf::Object(seq![("message"@, FieldOf::Text(message))]),
            },
        ),
        git_request(Some(w), GitActionOf::Commit { message, all: true }) == Ok::<RequestModel, Seq<char>>(
            RequestOf {
                method: Method::Post,
                route: "/v1/workspaces/"@ + decimal(w.id.0 as nat) + "/"@ + "changes/commit-all"@,
                body: BodyOf::Object(seq![("message"@, FieldOf::Text(message))]),
            },
        ),
{
}

/// Staging, unstaging and discarding a path each post it to a route of their
/// own, and a conflict is resolved by the path and the side that was taken.
pub proof fn a_change_is_posted_to_its_own_route(w: &Workspace, path: Seq<char>, take: ResolveSide)
    ensures
        ({
            let at = "/v1/workspaces/"@ + decimal(w.id.0 as nat) + "/"@;
            let body = BodyOf::<Seq<char>, FieldsModel>::Object(
                seq![("path"@, FieldOf::Text(path))],
            );
            &&& git_request(Some(w), GitActionOf::Stage(path)) == Ok::<RequestModel, Seq<char>>(
                RequestOf { method: Method::Post, route: at + "changes/stage"@, body },
            )
            &&& git_request(Some(w), GitActionOf::Unstage(path)) == Ok::<RequestModel, Seq<char>>(
                RequestOf { method: Method::Post, route: at + "changes/unstage"@, body },
            )
            &&& git_request(Some(w), GitActionOf::Discard(path)) == Ok::<RequestModel, Seq<char>>(
                RequestOf { method: Method::Post, route: at + "changes/discard"@, body },
            )
            &&& git_request(Some(w), GitActionOf::Resolve { path, take }) == Ok::<RequestModel, Seq<char>>(
                RequestOf {
                    method: Method::Post,
                    route: at + "git/resolve"@,
                    body: BodyOf::Object(
                        seq![("path"@, FieldOf::Text(path)), ("take"@, FieldOf::Side(take))],
                    ),
                },
            )
        }),
{
}

/// A new branch is checked out as it is made, a new tag is named, and a new
/// worktree is made beside the workspace on a branch of its own. Pushing sends
/// nothing along.
pub proof fn something_new_is_made_under_its_name(w: &Workspace, name: Seq<char>)
    ensures
        ({
            let at = "/v1/workspaces/"@ + decimal(w.id.0 as nat) + "/"@;
            &&& git_request(Some(w), GitActionOf::NewBranch(name)) == Ok::<RequestModel, Seq<char>>(
                RequestOf {
                    method: Method::Post,
                    route: at + "checkout"@,
                    body: BodyOf::Object(
                        seq![("branch"@, FieldOf::Text(name)), ("create"@, FieldOf::Flag(true))],
                    ),
                },
            )
            &&& git_request(Some(w), GitActionOf::NewTag(name)) == Ok::<RequestModel, Seq<char>>(
                RequestOf {
                    method: Method::Post,
                    route: at + "git/tag"@,
                    body: BodyOf::Object(seq![("name"@, FieldOf::Text(name))]),
                },
            )
            &&& git_request(Some(w), GitActionOf::NewWorktree(name)) == Ok::<RequestModel, Seq<char>>(
                RequestOf {
                    method: Method::Post,
                    route: at + "git/worktree"@,
                    body: BodyOf::Object(
                        seq![
                            ("path"@, FieldOf::Text(worktree_at(w.cwd@, name))),
                            ("branch"@, FieldOf::Text(name)),
                            ("new_branch"@, FieldOf::Flag(true)),
                        ],
                    ),
                },
            )
            &&& git_request(Some(w), GitActionOf::Push) == Ok::<RequestModel, Seq<char>>(
                RequestOf {
                    method: Method::Post,
                    route: at + "git/push"@,
                    body: BodyOf::Object(Seq::empty()),
                },
            )
        }),
{
}

/// Where no workspace is open nothing is asked, and it is said.
pub proof fn without_a_workspace_nothing_is_asked(
    action: GitActionModel,
    target: PickTarget,
    value: Seq<char>,
    page: Page,
    kind: DiffKindModel,
    fields: FieldsModel,
    sel: usize,
)
    ensures
        git_request(None, action) == Err::<RequestModel, _>("no workspace open"@),
        pick_request(None, target, value) == Err::<RequestModel, _>("no workspace open"@),
        workspace_post(None, value, fields) == Err::<RequestModel, _>("no workspace open"@),
        search_request(None, value) == Err::<RequestModel, _>("no workspace open"@),
        dir_request(None, page, value) == Err::<RequestModel, _>("no workspace open"@),
        diff_request(None, kind) == Err::<RequestModel, _>("no workspace open"@),
        listed(None, value) == Err::<RequestModel, _>("no workspace open"@),
        process_start(None, value, value) == Err::<StartOf<RequestModel>, _>(
            "no workspace open"@,
        ),
        restart_request(None, sel) == Err::<(RequestModel, PaneId), _>("no workspace open"@),
        agent_start(None, value) == Err::<StartOf<RequestModel>, _>("no workspace to act in"@),
{
}

/// A picked ref or commit is posted, by name, to the route of what it was
/// picked for.
pub proof fn a_pick_is_posted_to_its_own_route(w: &Workspace, value: Seq<char>)
    ensures
        ({
            let at = "/v1/workspaces/"@ + decimal(w.id.0 as nat) + "/"@;
            let asks = |target: PickTarget, tail: Seq<char>, name: Seq<char>|
                pick_request(Some(w), target, value) == Ok::<RequestModel, Seq<char>>(
                    RequestOf {
                        method: Method::Post,
                        route: at + tail,
                        body: BodyOf::Object(seq![(name, FieldOf::Text(value))]),
                    },
                );
            &&& asks(PickTarget::Checkout, "checkout"@, "branch"@)
            &&& asks(PickTarget::Revert, "git/revert"@, "rev"@)
            &&& asks(PickTarget::CherryPick, "git/cherry-pick"@, "rev"@)
            &&& asks(PickTarget::Merge, "git/merge"@, "branch"@)
            &&& asks(PickTarget::Rebase, "git/rebase"@, "onto"@)
        }),
        pick_request(Some(w), PickTarget::OpenWorktree, value) == Ok::<RequestModel, Seq<char>>(
            RequestOf {
                method: Method::Post,
                route: "/v1/workspaces"@,
                body: BodyOf::Object(seq![("path"@, FieldOf::Text(value))]),
            },
        ),
        ({
            let pops = |n: usize|
                pick_request(Some(w), PickTarget::StashPop, value) == Ok::<RequestModel, Seq<char>>(
                    RequestOf {
                        method: Method::Post,
                        route: "/v1/workspaces/"@ + decimal(w.id.0 as nat) + "/"@
                            + "git/stash/apply"@,
                        body: BodyOf::Object(
                            seq![("index"@, FieldOf::Number(n)), ("pop"@, FieldOf::Flag(true))],
                        ),
                    },
                );
            match index_named(value) {
                Some(n) => pops(n),
                None => pops(0),
            }
        }),
{
}

/// A pick that destroys something deletes it, and nothing else: the route
/// names what goes, written so that it survives in a query. No other pick
/// deletes.
pub proof fn a_pick_that_destroys_deletes_what_was_picked(w: &Workspace, value: Seq<char>)
    ensures
        ({
            let at = "/v1/workspaces/"@ + decimal(w.id.0 as nat) + "/"@;
            let drops = |target: PickTarget, tail: Seq<char>|
                pick_request(Some(w), target, value) == Ok::<RequestModel, Seq<char>>(
                    RequestOf {
                        method: Method::Delete,
                        route: at + (tail + url_text(value)),
                        body: BodyOf::Nothing,
                    },
                );
            &&& drops(PickTarget::DeleteBranch, "git/branch?name="@)
            &&& drops(PickTarget::StashDrop, "git/stash?index="@)
            &&& drops(PickTarget::TagDelete, "git/tag?name="@)
            &&& drops(PickTarget::RemoteRemove, "git/remote?name="@)
            &&& drops(PickTarget::RemoveWorktree, "git/worktree?path="@)
        }),
        forall|target: PickTarget|
            (#[trigger] pick_request(Some(w), target, value))->Ok_0.method is Delete
                <==> target.destroys(),
{
}

/// What the rows of the git menu that are carried out as they stand ask for.
/// Only one of them pushes by force, one throws work away, and one gives a
/// sequence up.
pub proof fn a_row_of_the_menu_asks_for_what_it_says()
    ensures
        menu_route(MenuAction::Fetch) == Some(
            (
                "git/fetch"@,
                seq![
                    ("all"@, FieldOf::<Seq<char>>::Flag(true)),
                    ("prune"@, FieldOf::Flag(true)),
                ],
            ),
        ),
        menu_route(MenuAction::Pull) == Some(("git/pull"@, FieldsModel::empty())),
        menu_route(MenuAction::PullRebase) == Some(
            ("git/pull"@, seq![("rebase"@, FieldOf::<Seq<char>>::Flag(true))]),
        ),
        menu_route(MenuAction::Push) == Some(("git/push"@, FieldsModel::empty())),
        menu_route(MenuAction::PushUpstream) == Some(
            ("git/push"@, seq![("set_upstream"@, FieldOf::<Seq<char>>::Flag(true))]),
        ),
        menu_route(MenuAction::PushForce) == Some(
            ("git/push"@, seq![("force"@, FieldOf::<Seq<char>>::Flag(true))]),
        ),
        menu_route(MenuAction::StashPush) == Some(("git/stash"@, FieldsModel::empty())),
        menu_route(MenuAction::StashPop) == Some(
            ("git/stash/apply"@, seq![("pop"@, FieldOf::<Seq<char>>::Flag(true))]),
        ),
        menu_route(MenuAction::SequenceContinue) == Some(
            ("git/sequence"@, seq![("action"@, FieldOf::Text("continue"@))]),
        ),
        menu_route(MenuAction::SequenceAbort) == Some(
            ("git/sequence"@, seq![("action"@, FieldOf::Text("abort"@))]),
        ),
        menu_route(MenuAction::SequenceSkip) == Some(
            ("git/sequence"@, seq![("action"@, FieldOf::Text("skip"@))]),
        ),
        menu_route(MenuAction::Amend) == Some(("git/amend"@, FieldsModel::empty())),
        menu_route(MenuAction::ResetSoft) == Some(
            (
                "git/reset"@,
                seq![("rev"@, FieldOf::Text("HEAD~1"@)), ("mode"@, FieldOf::Text("soft"@))],
            ),
        ),
        menu_route(MenuAction::ResetHard) == Some(
            ("git/reset"@, seq![("mode"@, FieldOf::Text("hard"@))]),
        ),
        menu_route(MenuAction::WorktreePrune) == Some(("git/worktree/prune"@, FieldsModel::empty())),
        forall|a: MenuAction| #[trigger]
            menu_route(a) is None <==> (a is Checkout || a is NewBranch || a is DeleteBranch
                || a is Merge || a is Rebase || a is StashList || a is StashDrop || a is TagCreate
                || a is TagDelete || a is RemoteRemove || a is WorktreeList || a is WorktreeAdd
                || a is WorktreeRemove),
{
}

/// Everything that is only read is asked for with the method that changes
/// nothing, below the workspace it is read of, and what is looked for is
/// written so that it survives in a query.
pub proof fn reading_changes_nothing(w: &Workspace, text: Seq<char>, page: Page, scope: Seq<char>)
    ensures
        ({
            let at = "/v1/workspaces/"@ + decimal(w.id.0 as nat) + "/"@;
            let read = |tail: Seq<char>|
                RequestOf::<Seq<char>, FieldsModel> {
                    method: Method::Get,
                    route: at + tail,
                    body: BodyOf::Nothing,
                };
            &&& search_request(Some(w), text) == Ok::<RequestModel, Seq<char>>(
                read("search?q="@ + url_text(text)),
            )
            &&& page is Docs ==> dir_request(Some(w), page, text) == Ok::<RequestModel, Seq<char>>(
                read("tree?path="@ + url_text(text) + "&filter=docs"@),
            )
            &&& page !is Docs ==> dir_request(Some(w), page, text) == Ok::<RequestModel, Seq<char>>(
                read("tree?path="@ + url_text(text) + ""@),
            )
            &&& file_route(w.id, text) == at + ("file?path="@ + url_text(text))
            &&& listed(Some(w), text) == Ok::<RequestModel, Seq<char>>(read(text))
            &&& git_reads(w.id, scope).log == read("git/log?limit=200&"@ + scope)
            &&& git_reads(w.id, scope).branches == read("branches"@)
            &&& git_reads(w.id, scope).tags == read("git/tags"@)
            &&& git_reads(w.id, scope).stashes == read("git/stashes"@)
            &&& git_reads(w.id, scope).remotes == read("git/remotes"@)
            &&& git_reads(w.id, scope).worktrees == read("git/worktrees"@)
        }),
        browse_request(""@) == (RequestOf::<Seq<char>, FieldsModel> {
            method: Method::Get,
            route: "/v1/fs"@,
            body: BodyOf::Nothing,
        }),
        text.len() > 0 ==> browse_request(text) == (RequestOf::<Seq<char>, FieldsModel> {
            method: Method::Get,
            route: "/v1/fs?path="@ + url_text(text),
            body: BodyOf::Nothing,
        }),
{
    reveal_strlit("");
}

/// A diff is read of the working tree, of what is staged, or of a commit: of
/// one path, or of all where none is named.
pub proof fn a_diff_is_read_of_what_it_is_of(
    w: &Workspace,
    path: Seq<char>,
    id: Seq<char>,
    summary: Seq<char>,
)
    ensures
        ({
            let at = "/v1/workspaces/"@ + decimal(w.id.0 as nat) + "/"@;
            let read = |kind: DiffKindModel, tail: Seq<char>|
                diff_request(Some(w), kind) == Ok::<RequestModel, Seq<char>>(
                    RequestOf {
                        method: Method::Get,
                        route: at + tail,
                        body: BodyOf::Nothing,
                    },
                );
            &&& read(DiffKindOf::Unstaged { path: Some(path) }, "diff?path="@ + url_text(path))
            &&& read(DiffKindOf::Unstaged { path: None }, "diff?path="@ + url_text(""@))
            &&& read(
                DiffKindOf::Staged { path: Some(path) },
                "diff?kind=staged&path="@ + url_text(path),
            )
            &&& read(
                DiffKindOf::Staged { path: None },
                "diff?kind=staged&path="@ + url_text(""@),
            )
            &&& read(DiffKindOf::Commit { id, summary }, "show?id="@ + url_text(id))
        }),
{
}

/// What is started is looked for in the list of its own kind: an agent among
/// the agents, a command among the processes.
pub proof fn what_is_started_is_looked_for_in_its_own_list(
    w: &Workspace,
    name: Seq<char>,
    command: Seq<char>,
)
    ensures
        ({
            let at = "/v1/workspaces/"@ + decimal(w.id.0 as nat) + "/"@;
            &&& agent_start(Some(w), name) == Ok::<StartOf<RequestModel>, Seq<char>>(
                StartOf {
                    list: RequestOf {
                        method: Method::Get,
                        route: at + "agents"@,
                        body: BodyOf::Nothing,
                    },
                    start: RequestOf {
                        method: Method::Post,
                        route: at + "agents"@,
                        body: BodyOf::Object(seq![("type"@, FieldOf::Text(name))]),
                    },
                },
            )
            &&& process_start(Some(w), name, command) == Ok::<StartOf<RequestModel>, Seq<char>>(
                StartOf {
                    list: RequestOf {
                        method: Method::Get,
                        route: at + "processes"@,
                        body: BodyOf::Nothing,
                    },
                    start: RequestOf {
                        method: Method::Post,
                        route: at + "processes"@,
                        body: BodyOf::Object(
                            seq![
                                ("name"@, FieldOf::Text(name)),
                                ("command"@, FieldOf::Text(command)),
                            ],
                        ),
                    },
                },
            )
        }),
{
}

/// A pane is killed by deleting it from the workspace it is in, wherever the
/// keyboard is, unless its machine has gone. The process under the cursor is
/// restarted by its own number, and the stage lets go of its old pane only.
pub proof fn a_pane_is_killed_or_restarted_by_its_number(
    machines: int,
    to: Route,
    w: &Workspace,
    sel: usize,
    v: BenchModel,
    pane: PaneId,
)
    ensures
        to.daemon < machines ==> kill_request(machines, to) == Ok::<RequestModel, Seq<char>>(
            RequestOf {
                method: Method::Delete,
                route: "/v1/workspaces/"@ + decimal(to.workspace.0 as nat) + "/"@ + ("processes/"@
                    + decimal(to.pane.0 as nat)),
                body: BodyOf::Nothing,
            },
        ),
        to.daemon >= machines ==> kill_request(machines, to) == Err::<RequestModel, _>(
            "that machine has gone"@,
        ),
        sel < w.processes@.len() ==> restart_request(Some(w), sel) == Ok::<(RequestModel, PaneId), Seq<char>>(
            (
                RequestOf {
                    method: Method::Post,
                    route: "/v1/workspaces/"@ + decimal(w.id.0 as nat) + "/"@ + ("processes/"@
                        + decimal(w.processes@[sel as int].0 as nat) + "/restart"@),
                    body: BodyOf::Object(Seq::empty()),
                },
                w.processes@[sel as int],
            ),
        ),
        sel >= w.processes@.len() ==> restart_request(Some(w), sel) == Err::<
            (RequestModel, PaneId),
            _,
        >("no process selected"@),
        restarted(v, pane).staged == (if v.staged == Some(pane) {
            None
        } else {
            v.staged
        }),
        restarted(v, pane) == (BenchOf { staged: restarted(v, pane).staged, ..v }),
{
}

/// What was started is waited for through forty readings of its list, and no
/// longer. What is said at the end names it, and the list it was not in.
pub proof fn an_arrival_is_waited_for_forty_times(
    before: Seq<PaneId>,
    now: Seq<PaneId>,
    tries: usize,
    name: Seq<char>,
    agent: bool,
)
    ensures
        arrived(before, now, tries, name, agent) is Here <==> exists|i: int|
            0 <= i < now.len() && !before.contains(#[trigger] now[i]),
        arrived(before, now, tries, name, agent) is Here ==> now.contains(
            arrived(before, now, tries, name, agent)->Here_0,
        ) && !before.contains(arrived(before, now, tries, name, agent)->Here_0),
        (forall|i: int| 0 <= i < now.len() ==> before.contains(#[trigger] now[i])) ==> {
            &&& tries < 40 ==> arrived(before, now, tries, name, agent) is Later
            &&& tries >= 40 && agent ==> arrived(before, now, tries, name, agent)
                == ArrivalOf::Never(name + " did not appear in the agent list"@)
            &&& tries >= 40 && !agent ==> arrived(before, now, tries, name, agent)
                == ArrivalOf::Never(name + " did not appear in the process list"@)
        },
{
    a_new_pane_is_new(before, now);
}

/// The first pane that is new is the one that is found: all before it were
/// there already.
pub proof fn the_first_new_pane_is_found(before: Seq<PaneId>, now: Seq<PaneId>, k: int)
    requires
        0 <= k < now.len(),
        !before.contains(now[k]),
        forall|i: int| 0 <= i < k ==> before.contains(#[trigger] now[i]),
    ensures
        first_new(before, now) == Some(now[k]),
    decreases k,
{
    if k > 0 {
        let rest = now.skip(1);
        assert(before.contains(now[0]));
        assert forall|i: int| 0 <= i < k - 1 implies before.contains(#[trigger] rest[i]) by {
            assert(rest[i] == now[i + 1]);
        }
        assert(rest[k - 1] == now[k]);
        the_first_new_pane_is_found(before, rest, k - 1);
    }
}

} // verus!
