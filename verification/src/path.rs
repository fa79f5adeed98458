//! Paths on the machines, which part their components with `/`.
use vstd::prelude::*;

use crate::text::{cat, cat3, chars_of, same, slice_text, texts};
use crate::types::{ListKindOf, ListOverlayOf, Overlay, OverlayModel};

verus! {

/// Where the components of a path begin: behind the root, or behind a leading
/// dot that stands for the directory one is in.
pub open spec fn body_start(s: Seq<char>) -> int {
    if s.len() > 0 && s[0] == '/' {
        1
    } else if s.len() > 0 && s[0] == '.' && (s.len() == 1 || s[1] == '/') {
        1
    } else {
        0
    }
}

/// Where the last component of a path begins.
pub open spec fn last_start(s: Seq<char>, body: int) -> int
    decreases s.len(),
{
    if s.len() == 0 || s.len() <= body {
        body
    } else if s.last() == '/' {
        s.len() as int
    } else {
        last_start(s.drop_last(), body)
    }
}

/// Whether a component says nothing: it is empty, or a dot.
pub open spec fn says_nothing(c: Seq<char>) -> bool {
    c.len() == 0 || (c.len() == 1 && c[0] == '.')
}

/// A path without its last component and what parts that from the rest.
pub open spec fn without_last(s: Seq<char>, body: int) -> Seq<char> {
    if last_start(s, body) > body {
        s.take(last_start(s, body) - 1)
    } else {
        s.take(body)
    }
}

proof fn last_start_bounds(s: Seq<char>, body: int)
    requires
        0 <= body <= s.len(),
    ensures
        body <= last_start(s, body) <= s.len(),
        last_start(s, body) > body ==> s[last_start(s, body) - 1] == '/',
        forall|i: int| last_start(s, body) <= i < s.len() ==> s[i] != '/',
    decreases s.len(),
{
    if s.len() > body && s.last() != '/' {
        last_start_bounds(s.drop_last(), body);
        assert forall|i: int| last_start(s, body) <= i < s.len() implies s[i] != '/' by {
            if i < s.len() - 1 {
                assert(s.drop_last()[i] == s[i]);
            }
        }
    }
}

/// A path without the components at its end that say nothing.
pub open spec fn settled(s: Seq<char>, body: int) -> Seq<char>
    decreases s.len(),
{
    if 0 <= body < s.len() && says_nothing(s.skip(last_start(s, body))) && without_last(s, body).len()
        < s.len() {
        settled(without_last(s, body), body)
    } else {
        s
    }
}

/// The last component of a path, unless it is the root, the directory one is
/// in, or the one above.
pub open spec fn file_name(s: Seq<char>) -> Option<Seq<char>> {
    let body = body_start(s);
    let t = settled(s, body);
    let last = t.skip(last_start(t, body));
    if t.len() > body && !(last.len() == 2 && last[0] == '.' && last[1] == '.') {
        Some(last)
    } else {
        None
    }
}

/// The path above a path; the root and the empty path have none.
pub open spec fn parent(s: Seq<char>) -> Option<Seq<char>> {
    let body = body_start(s);
    let t = settled(s, body);
    if t.len() > body {
        Some(settled(without_last(t, body), body))
    } else if s.len() > 0 && s[0] == '.' {
        Some(Seq::empty())
    } else {
        None
    }
}

/// A path below another. A path from the root stays as it is.
pub open spec fn joined(a: Seq<char>, b: Seq<char>) -> Seq<char> {
    if b.len() > 0 && b[0] == '/' {
        b
    } else if a.len() == 0 || a.last() == '/' {
        a + b
    } else {
        a + "/"@ + b
    }
}

fn find_body(v: &Vec<char>) -> (r: usize)
    ensures
        r == body_start(v@),
        r <= v@.len(),
{
    if v.len() > 0 && v[0] == '/' {
        1
    } else if v.len() > 0 && v[0] == '.' && (v.len() == 1 || v[1] == '/') {
        1
    } else {
        0
    }
}

fn find_last(v: &Vec<char>, to: usize, body: usize) -> (r: usize)
    requires
        body <= to <= v@.len(),
    ensures
        r == last_start(v@.take(to as int), body as int),
        body <= r <= to,
        r > body ==> v@[r - 1] == '/',
{
    let mut i: usize = to;
    while i > body && v[i - 1] != '/'
        invariant
            body <= i <= to <= v@.len(),
            last_start(v@.take(to as int), body as int) == last_start(v@.take(i as int), body as int),
        decreases i,
    {
        assert(v@.take(i as int).drop_last() =~= v@.take(i as int - 1));
        i = i - 1;
    }
    i
}

fn silent(v: &Vec<char>, from: usize, to: usize) -> (r: bool)
    requires
        from <= to <= v@.len(),
    ensures
        r == says_nothing(v@.subrange(from as int, to as int)),
{
    from == to || (to - from == 1 && v[from] == '.')
}

fn settle(v: &Vec<char>, from: usize, body: usize) -> (r: usize)
    requires
        body <= from <= v@.len(),
    ensures
        body <= r <= from,
        v@.take(r as int) == settled(v@.take(from as int), body as int),
{
    let mut to: usize = from;
    loop
        invariant
            body <= to <= from <= v@.len(),
            settled(v@.take(to as int), body as int) == settled(v@.take(from as int), body as int),
        decreases to,
    {
        if to <= body {
            return to;
        }
        let start: usize = find_last(v, to, body);
        assert(v@.take(to as int).skip(start as int) =~= v@.subrange(start as int, to as int));
        if !silent(v, start, to) {
            return to;
        }
        let cut: usize = if start > body {
            start - 1
        } else {
            body
        };
        assert(v@.take(to as int).take(cut as int) =~= v@.take(cut as int));
        assert(without_last(v@.take(to as int), body as int) == v@.take(cut as int));
        to = cut;
    }
}

/// The path above a path, if it has one.
pub fn path_parent(s: &str) -> (r: Option<String>)
    ensures
        crate::text::opt_text(r) == parent(s@),
{
    let v = chars_of(s);
    let body: usize = find_body(&v);
    let n: usize = v.len();
    assert(v@.take(n as int) =~= v@);
    let t: usize = settle(&v, n, body);
    if t > body {
        let start: usize = find_last(&v, t, body);
        let cut: usize = if start > body {
            start - 1
        } else {
            body
        };
        assert(v@.take(t as int).take(cut as int) =~= v@.take(cut as int));
        let up: usize = settle(&v, cut, body);
        assert(v@.subrange(0, up as int) =~= v@.take(up as int));
        Some(slice_text(&v, 0, up))
    } else if n > 0 && v[0] == '.' {
        Some(String::new())
    } else {
        None
    }
}

/// The last component of a path, if it has one with a name.
pub fn path_file_name(s: &str) -> (r: Option<String>)
    ensures
        crate::text::opt_text(r) == file_name(s@),
{
    let v = chars_of(s);
    let body: usize = find_body(&v);
    let n: usize = v.len();
    assert(v@.take(n as int) =~= v@);
    let t: usize = settle(&v, n, body);
    if t > body {
        let start: usize = find_last(&v, t, body);
        assert(v@.take(t as int).skip(start as int) =~= v@.subrange(start as int, t as int));
        if t - start == 2 && v[start] == '.' && v[start + 1] == '.' {
            None
        } else {
            Some(slice_text(&v, start, t))
        }
    } else {
        None
    }
}

/// A path below another.
pub fn path_join(a: &str, b: &str) -> (r: String)
    ensures
        r@ == joined(a@, b@),
{
    let va = chars_of(a);
    let vb = chars_of(b);
    if vb.len() > 0 && vb[0] == '/' {
        b.to_owned()
    } else if va.len() == 0 || va[va.len() - 1] == '/' {
        cat(a, b)
    } else {
        cat3(a, "/", b)
    }
}

/// A name with every `/` made a `-`.
pub open spec fn dashed(s: Seq<char>) -> Seq<char> {
    Seq::new(
        s.len(),
        |i: int|
            if s[i] == '/' {
                '-'
            } else {
                s[i]
            },
    )
}

fn dash(s: &str) -> (r: String)
    ensures
        r@ == dashed(s@),
{
    let v = chars_of(s);
    let mut out = String::new();
    let mut i: usize = 0;
    while i < v.len()
        invariant
            i <= v@.len(),
            out@ == dashed(v@).take(i as int),
        decreases v@.len() - i,
    {
        out.push(
            if v[i] == '/' {
                '-'
            } else {
                v[i]
            },
        );
        i = i + 1;
        assert(out@ =~= dashed(v@).take(i as int));
    }
    assert(dashed(v@).take(i as int) =~= dashed(v@));
    out
}

/// Where the checkout of a new worktree goes: beside the one it is made from,
/// under that one's name and the branch's.
pub open spec fn worktree_at(cwd: Seq<char>, branch: Seq<char>) -> Seq<char> {
    let base = match file_name(cwd) {
        Some(n) => n,
        None => Seq::empty(),
    };
    let above = match parent(cwd) {
        Some(p) => p,
        None => "."@,
    };
    joined(above, base + "-"@ + dashed(branch))
}

/// Where the checkout of a new worktree goes.
pub fn worktree_path(cwd: &str, branch: &str) -> (r: String)
    ensures
        r@ == worktree_at(cwd@, branch@),
{
    let base = match path_file_name(cwd) {
        Some(n) => n,
        None => String::new(),
    };
    let above = match path_parent(cwd) {
        Some(p) => p,
        None => ".".to_owned(),
    };
    let safe = dash(branch);
    let name = cat3(base.as_str(), "-", safe.as_str());
    path_join(above.as_str(), name.as_str())
}

proof fn last_start_is(s: Seq<char>, body: int, start: int)
    requires
        0 <= body <= start <= s.len(),
        start == body || s[start - 1] == '/',
        forall|i: int| start <= i < s.len() ==> s[i] != '/',
    ensures
        last_start(s, body) == start,
    decreases s.len(),
{
    if s.len() > start {
        assert(s.last() == s[s.len() - 1]);
        last_start_is(s.drop_last(), body, start);
    }
}

proof fn settled_is_a_beginning(s: Seq<char>, body: int)
    requires
        0 <= body <= s.len(),
    ensures
        body <= settled(s, body).len() <= s.len(),
        settled(s, body) == s.take(settled(s, body).len() as int),
        settled(settled(s, body), body) == settled(s, body),
        settled(s, body).len() > body ==> !says_nothing(
            settled(s, body).skip(last_start(settled(s, body), body)),
        ),
    decreases s.len(),
{
    last_start_bounds(s, body);
    if s.len() > body && says_nothing(s.skip(last_start(s, body))) {
        let shorter = without_last(s, body);
        settled_is_a_beginning(shorter, body);
        assert(shorter.take(settled(shorter, body).len() as int) =~= s.take(
            settled(shorter, body).len() as int,
        ));
    } else {
        assert(s.take(s.len() as int) =~= s);
    }
}

/// A worktree goes beside the checkout it is made from and never inside it,
/// whatever the branch is called: it is in the same directory, under the
/// checkout's name and the branch's, and its path does not begin with that of
/// the checkout and a `/`. So it is for every path that ends in a name, from
/// the root or not.
#[verifier::rlimit(40)]
pub proof fn a_worktree_is_never_inside_its_checkout(cwd: Seq<char>, branch: Seq<char>)
    requires
        file_name(cwd) is Some,
    ensures
        ({
            let at = worktree_at(cwd, branch);
            &&& parent(at) == parent(cwd)
            &&& file_name(at) == Some(file_name(cwd)->0 + "-"@ + dashed(branch))
            &&& !(cwd + "/"@).is_prefix_of(at)
        }),
{
    reveal_strlit("/");
    reveal_strlit("-");
    let body = body_start(cwd);
    let t = settled(cwd, body);
    settled_is_a_beginning(cwd, body);
    last_start_bounds(t, body);
    let from = last_start(t, body);
    let base = t.skip(from);
    let left = without_last(t, body);
    settled_is_a_beginning(left, body);
    let above = settled(left, body);
    last_start_bounds(above, body);
    assert(file_name(cwd) == Some(base));
    assert(parent(cwd) == Some(above));
    assert(base.len() > 0);
    assert(base[0] == t[from]);
    assert(forall|i: int| 0 <= i < base.len() ==> base[i] == t[from + i]);
    let name = base + "-"@ + dashed(branch);
    assert(forall|i: int| 0 <= i < name.len() ==> name[i] != '/');
    assert(name[base.len() as int] == '-');
    assert(above =~= cwd.take(above.len() as int));
    assert(above.len() > body ==> above.last() != '/') by {
        if above.len() > body && above.last() == '/' {
            assert(last_start(above, body) == above.len());
        }
    }
    let at = worktree_at(cwd, branch);
    assert(at == joined(above, name));
    let start: int = if above.len() == 0 || above.last() == '/' {
        above.len() as int
    } else {
        above.len() as int + 1
    };
    assert(at.len() == start + name.len());
    assert(forall|i: int| 0 <= i < above.len() ==> at[i] == cwd[i]);
    assert(forall|i: int| 0 <= i < name.len() ==> at[start + i] == name[i]);
    assert(forall|i: int| start <= i < at.len() ==> at[i] == name[i - start]);
    if (cwd + "/"@).is_prefix_of(at) {
        assert((cwd + "/"@)[cwd.len() as int] == '/');
        assert(at[cwd.len() as int] == '/');
        assert(cwd.len() >= start);
        assert(false);
    }
    assert(body_start(at) == body);
    last_start_is(at, body, start);
    assert(at.skip(start) =~= name);
    assert(settled(at, body) == at);
    assert(file_name(at) == Some(name));
    assert(without_last(at, body) =~= above);
}

/// Where the last `/` of a text stands.
pub open spec fn last_slash(s: Seq<char>) -> Option<int>
    decreases s.len(),
{
    if s.len() == 0 {
        None
    } else if s.last() == '/' {
        Some(s.len() - 1)
    } else {
        last_slash(s.drop_last())
    }
}

/// The directory above one of a workspace, named from the workspace's root.
/// The root, which has no name, has none above it.
pub open spec fn dir_above(dir: Seq<char>) -> Option<Seq<char>> {
    if dir.len() == 0 {
        None
    } else {
        match last_slash(dir) {
            Some(i) => Some(dir.take(i)),
            None => Some(Seq::empty()),
        }
    }
}

/// The directory above one of a workspace.
pub fn parent_of(dir: &str) -> (r: Option<String>)
    ensures
        crate::text::opt_text(r) == dir_above(dir@),
{
    let v = chars_of(dir);
    if v.len() == 0 {
        return None;
    }
    let mut i: usize = v.len();
    assert(v@.take(i as int) =~= v@);
    while i > 0 && v[i - 1] != '/'
        invariant
            i <= v@.len(),
            last_slash(v@) == last_slash(v@.take(i as int)),
        decreases i,
    {
        assert(v@.take(i as int).drop_last() =~= v@.take(i as int - 1));
        i = i - 1;
    }
    if i == 0 {
        Some(String::new())
    } else {
        assert(v@.subrange(0, i as int - 1) =~= v@.take(i as int - 1));
        Some(slice_text(&v, 0, i - 1))
    }
}

/// The row of a folder picker that opens a workspace in the folder shown.
pub open spec fn browse_open() -> Seq<char> {
    "[open this folder]"@
}

/// The row of a folder picker that makes a folder in the folder shown.
pub open spec fn browse_new() -> Seq<char> {
    "[new folder]"@
}

/// The row of a picker that leads to the level above.
pub open spec fn browse_up() -> Seq<char> {
    ".."@
}

/// The row that opens a workspace in the folder shown.
pub fn browse_open_row() -> (s: String)
    ensures
        s@ == browse_open(),
{
    "[open this folder]".to_owned()
}

/// The row that makes a folder in the folder shown.
pub fn browse_new_row() -> (s: String)
    ensures
        s@ == browse_new(),
{
    "[new folder]".to_owned()
}

/// The row that leads to the level above.
pub fn browse_up_row() -> (s: String)
    ensures
        s@ == browse_up(),
{
    "..".to_owned()
}

/// Where a row of a folder picker leads.
#[verifier::ext_equal]
#[derive(Clone, Debug, PartialEq, Eq)]
pub enum BrowseStepOf<S> {
    Descend(S),
    OpenHere(S),
    NewHere(S),
}

pub type BrowseStep = BrowseStepOf<String>;

impl View for BrowseStepOf<String> {
    type V = BrowseStepOf<Seq<char>>;

    open spec fn view(&self) -> BrowseStepOf<Seq<char>> {
        match *self {
            BrowseStepOf::Descend(p) => BrowseStepOf::Descend(p@),
            BrowseStepOf::OpenHere(p) => BrowseStepOf::OpenHere(p@),
            BrowseStepOf::NewHere(p) => BrowseStepOf::NewHere(p@),
        }
    }
}

/// Where a row of a folder picker leads, from the folder it shows. Up from the
/// root is the root.
pub open spec fn browsed(dir: Seq<char>, choice: Seq<char>) -> BrowseStepOf<Seq<char>> {
    if choice == browse_open() {
        BrowseStepOf::OpenHere(dir)
    } else if choice == browse_new() {
        BrowseStepOf::NewHere(dir)
    } else if choice == browse_up() {
        BrowseStepOf::Descend(
            match parent(dir) {
                Some(up) => if up.len() > 0 {
                    up
                } else {
                    dir
                },
                None => dir,
            },
        )
    } else {
        BrowseStepOf::Descend(
            joined(
                dir,
                if choice.len() > 0 && choice.last() == '/' {
                    choice.drop_last()
                } else {
                    choice
                },
            ),
        )
    }
}

/// Follows a row of a folder picker.
pub fn browse_step(dir: &str, choice: &str) -> (r: BrowseStep)
    ensures
        r@ == browsed(dir@, choice@),
{
    let open = browse_open_row();
    if same(choice, open.as_str()) {
        return BrowseStep::OpenHere(dir.to_owned());
    }
    let new = browse_new_row();
    if same(choice, new.as_str()) {
        return BrowseStep::NewHere(dir.to_owned());
    }
    let up_row = browse_up_row();
    if same(choice, up_row.as_str()) {
        return BrowseStep::Descend(
            match path_parent(dir) {
                Some(up) => if up.as_str().is_empty() {
                    dir.to_owned()
                } else {
                    up
                },
                None => dir.to_owned(),
            },
        );
    }
    let v = chars_of(choice);
    let n: usize = v.len();
    if n > 0 && v[n - 1] == '/' {
        assert(v@.subrange(0, n as int - 1) =~= choice@.drop_last());
        let name = slice_text(&v, 0, n - 1);
        BrowseStep::Descend(path_join(dir, name.as_str()))
    } else {
        BrowseStep::Descend(path_join(dir, choice))
    }
}

/// An entry of a directory on a machine.
#[derive(Clone, Debug, PartialEq, Eq)]
pub struct BrowseEntry {
    pub name: String,
    pub is_dir: bool,
}

/// A directory on a machine, whether there is one above it, and what it holds.
#[derive(Clone, Debug, PartialEq, Eq)]
pub struct BrowseListing {
    pub path: String,
    pub has_parent: bool,
    pub entries: Vec<BrowseEntry>,
}

/// The directories among some entries, each written with a `/` behind it.
pub open spec fn folder_rows(entries: Seq<BrowseEntry>) -> Seq<Seq<char>>
    decreases entries.len(),
{
    if entries.len() == 0 {
        Seq::empty()
    } else {
        let before = folder_rows(entries.drop_last());
        if entries.last().is_dir {
            before.push(entries.last().name@ + "/"@)
        } else {
            before
        }
    }
}

/// The rows of a folder picker: the two that act here, the way out where there
/// is one, and the folders.
pub open spec fn browse_rows(l: BrowseListing) -> Seq<Seq<char>> {
    seq![browse_open(), browse_new()] + (if l.has_parent {
        seq![browse_up()]
    } else {
        Seq::empty()
    }) + folder_rows(l.entries@)
}

/// A directory of a machine, to choose a folder from.
pub open spec fn folder_list(l: BrowseListing) -> OverlayModel {
    OverlayModel::List(
        ListOverlayOf {
            title: "OPEN IN "@ + l.path@,
            items: browse_rows(l),
            values: None,
            sel: 0,
            kind: ListKindOf::Browse { dir: l.path@ },
        },
    )
}

/// Shows a directory of a machine to choose a folder from.
pub fn browse_overlay(l: BrowseListing) -> (o: Overlay)
    ensures
        o@ == folder_list(l),
{
    broadcast use crate::text::texts_push;

    let mut items: Vec<String> = Vec::new();
    items.push(browse_open_row());
    items.push(browse_new_row());
    if l.has_parent {
        items.push(browse_up_row());
    }
    let ghost head = texts(items@);
    assert(head =~= seq![browse_open(), browse_new()] + (if l.has_parent {
        seq![browse_up()]
    } else {
        Seq::empty()
    }));
    let mut i: usize = 0;
    assert(l.entries@.take(0) =~= Seq::<BrowseEntry>::empty());
    assert(texts(items@) =~= head + folder_rows(l.entries@.take(0)));
    while i < l.entries.len()
        invariant
            i <= l.entries@.len(),
            texts(items@) == head + folder_rows(l.entries@.take(i as int)),
        decreases l.entries@.len() - i,
    {
        assert(l.entries@.take(i as int + 1).drop_last() =~= l.entries@.take(i as int));
        assert(l.entries@.take(i as int + 1).last() == l.entries@[i as int]);
        if l.entries[i].is_dir {
            let row = cat(l.entries[i].name.as_str(), "/");
            let ghost sofar = items@;
            items.push(row);
            assert(texts(items@) =~= texts(sofar).push(row@));
        }
        i = i + 1;
        assert(texts(items@) =~= head + folder_rows(l.entries@.take(i as int)));
    }
    assert(l.entries@.take(i as int) =~= l.entries@);
    assert(texts(items@) =~= browse_rows(l));
    let title = cat("OPEN IN ", l.path.as_str());
    Overlay::List(
        ListOverlayOf { title, items, values: None, sel: 0, kind: ListKindOf::Browse { dir: l.path } },
    )
}

/// What is joined to a path is taken off it again: the path above is the one
/// that was joined to, and the last component is the name. So it is for every
/// path with nothing to settle and every name that is one.
pub proof fn a_joined_name_is_taken_off_again(dir: Seq<char>, name: Seq<char>)
    requires
        dir.len() > 0,
        settled(dir, body_start(dir)) == dir,
        !says_nothing(name),
        name != ".."@,
        forall|i: int| 0 <= i < name.len() ==> name[i] != '/',
    ensures
        parent(joined(dir, name)) == Some(dir),
        file_name(joined(dir, name)) == Some(name),
        dir.last() != '/' ==> joined(dir, name) == dir + "/"@ + name,
{
    reveal_strlit("/");
    reveal_strlit("..");
    let body = body_start(dir);
    let s = joined(dir, name);
    assert(name.len() > 0 && name[0] != '/');
    if dir.last() == '/' {
        if dir.len() > body {
            last_start_is(dir, body, dir.len() as int);
            assert(dir.skip(dir.len() as int) =~= Seq::empty());
            settled_is_a_beginning(dir, body);
            assert(false);
        }
        assert(dir.len() == 1 && dir[0] == '/');
        assert(s == dir + name);
        assert(body_start(s) == 1);
        last_start_is(s, 1, 1);
        assert(s.skip(1) =~= name);
        assert(settled(s, 1) == s);
        assert(without_last(s, 1) =~= dir);
    } else {
        let start = dir.len() as int + 1;
        assert(s == dir + "/"@ + name);
        assert(s[dir.len() as int] == '/');
        assert(s[0] == dir[0]);
        if dir.len() > 1 {
            assert(s[1] == dir[1]);
        }
        assert(body_start(s) == body);
        assert forall|i: int| start <= i < s.len() implies s[i] != '/' by {
            assert(s[i] == name[i - start]);
        }
        last_start_is(s, body, start);
        assert(s.skip(start) =~= name);
        assert(settled(s, body) == s);
        assert(s.take(start - 1) =~= dir);
    }
    if name.len() == 2 && name[0] == '.' && name[1] == '.' {
        assert(name =~= ".."@);
    }
}

/// A path from the root stays as it is wherever it is joined.
pub proof fn a_path_from_the_root_stays(a: Seq<char>, b: Seq<char>)
    requires
        b.len() > 0,
        b[0] == '/',
    ensures
        joined(a, b) == b,
{
}

proof fn the_last_slash_is_found(s: Seq<char>, at: int)
    requires
        0 <= at < s.len(),
        s[at] == '/',
        forall|i: int| at < i < s.len() ==> s[i] != '/',
    ensures
        last_slash(s) == Some(at),
    decreases s.len(),
{
    if at < s.len() - 1 {
        assert(s.last() != '/');
        the_last_slash_is_found(s.drop_last(), at);
    }
}

proof fn no_slash_is_found(s: Seq<char>)
    requires
        forall|i: int| 0 <= i < s.len() ==> s[i] != '/',
    ensures
        last_slash(s) is None,
    decreases s.len(),
{
    if s.len() > 0 {
        assert(s.last() != '/');
        no_slash_is_found(s.drop_last());
    }
}

/// The directory above one of a workspace is what stands before its last name;
/// above a name alone is the top, and above the top is nothing.
pub proof fn the_directory_above_is_without_the_last_name(dir: Seq<char>, name: Seq<char>)
    requires
        name.len() > 0,
        forall|i: int| 0 <= i < name.len() ==> name[i] != '/',
    ensures
        dir_above(dir + "/"@ + name) == Some(dir),
        dir_above(name) == Some(Seq::<char>::empty()),
        dir_above(Seq::empty()) is None,
{
    reveal_strlit("/");
    let s = dir + "/"@ + name;
    assert forall|i: int| dir.len() < i < s.len() implies s[i] != '/' by {
        assert(s[i] == name[i - dir.len() - 1]);
    }
    the_last_slash_is_found(s, dir.len() as int);
    assert(s.take(dir.len() as int) =~= dir);
    no_slash_is_found(name);
}

/// The rows of a folder picker lead where they say: the first opens the folder
/// that is shown, the second makes one in it, the way up leads to the path
/// above, and a folder leads into itself.
pub proof fn a_folder_row_leads_where_it_says(dir: Seq<char>, name: Seq<char>, up: Seq<char>)
    ensures
        browsed(dir, "[open this folder]"@) == BrowseStepOf::OpenHere(dir),
        browsed(dir, "[new folder]"@) == BrowseStepOf::NewHere(dir),
        parent(dir) == Some(up) && up.len() > 0 ==> browsed(dir, ".."@) == BrowseStepOf::Descend(up),
        parent(dir) is None || parent(dir)->0.len() == 0 ==> browsed(dir, ".."@)
            == BrowseStepOf::Descend(dir),
        browsed(dir, name + "/"@) == BrowseStepOf::Descend(joined(dir, name)),
{
    reveal_strlit("[open this folder]");
    reveal_strlit("[new folder]");
    reveal_strlit("..");
    reveal_strlit("/");
    let row = name + "/"@;
    assert(row.last() == '/');
    assert(row.drop_last() =~= name);
    assert("[open this folder]"@.last() == ']');
    assert("[new folder]"@.last() == ']');
    assert("[open this folder]"@.len() != "[new folder]"@.len());
}

/// A folder picker opens on its first row, of the folder it shows: to open
/// here, to make a folder here, the way up where there is one, and then the
/// folders in order, each with a `/` behind it, and no file.
pub proof fn a_folder_picker_lists_the_folders(l: BrowseListing, entries: Seq<BrowseEntry>, e: BrowseEntry)
    ensures
        folder_list(l) matches crate::types::OverlayOf::List(list) && list.sel == 0 && list.values
            is None && list.title == "OPEN IN "@ + l.path@ && list.kind == (ListKindOf::Browse {
            dir: l.path@,
        }) && list.items == browse_rows(l),
        browse_rows(l)[0] == "[open this folder]"@,
        browse_rows(l)[1] == "[new folder]"@,
        l.has_parent ==> browse_rows(l)[2] == ".."@ && browse_rows(l).skip(3) == folder_rows(
            l.entries@,
        ),
        !l.has_parent ==> browse_rows(l).skip(2) == folder_rows(l.entries@),
        folder_rows(Seq::empty()) == Seq::<Seq<char>>::empty(),
        e.is_dir ==> folder_rows(entries.push(e)) == folder_rows(entries).push(e.name@ + "/"@),
        !e.is_dir ==> folder_rows(entries.push(e)) == folder_rows(entries),
{
    assert(entries.push(e).drop_last() =~= entries);
    if l.has_parent {
        assert(browse_rows(l).skip(3) =~= folder_rows(l.entries@));
    } else {
        assert(browse_rows(l).skip(2) =~= folder_rows(l.entries@));
    }
}

/// The path of a worktree, written out for a checkout below another directory:
/// the checkout's name, a dash, and the branch with its slashes made dashes.
pub proof fn a_worktree_goes_beside_its_checkout(dir: Seq<char>, name: Seq<char>, branch: Seq<char>)
    requires
        dir.len() > 0,
        settled(dir, body_start(dir)) == dir,
        !says_nothing(name),
        name != ".."@,
        forall|i: int| 0 <= i < name.len() ==> name[i] != '/',
    ensures
        worktree_at(joined(dir, name), branch) == joined(dir, name + "-"@ + dashed(branch)),
        dashed(branch).len() == branch.len(),
        forall|i: int|
            0 <= i < branch.len() ==> #[trigger] dashed(branch)[i] == (if branch[i] == '/' {
                '-'
            } else {
                branch[i]
            }),
{
    a_joined_name_is_taken_off_again(dir, name);
}

} // verus!
