//! Machines that come and go: dialling them, dropping them, and dialling them
//! again when they drop out by themselves.
use vstd::prelude::*;

use crate::bench::{let_go, reset_sel};
use crate::named::Named;
use crate::roster::Daemon;
use crate::text::{cat, cat3, contains, decimal, opt_text, opt_texts, same, texts, to_decimal};
use crate::types::{
    Bench, BenchModel, BenchOf, ListKindOf, ListOverlayOf, Overlay, OverlayModel, OverlayOf,
};

verus! {

/// Whether a text stands before another, character by character.
pub open spec fn stands_before(a: Seq<char>, b: Seq<char>) -> bool
    decreases a.len(),
{
    if b.len() == 0 {
        false
    } else if a.len() == 0 {
        true
    } else if a[0] != b[0] {
        a[0] < b[0]
    } else {
        stands_before(a.skip(1), b.skip(1))
    }
}

proof fn before_is_strict(a: Seq<char>, b: Seq<char>)
    ensures
        !stands_before(a, a),
        stands_before(a, b) ==> !stands_before(b, a),
        !stands_before(a, b) && !stands_before(b, a) ==> a == b,
    decreases a.len(),
{
    if a.len() > 0 && b.len() > 0 {
        before_is_strict(a.skip(1), b.skip(1));
        if a[0] == b[0] && a.skip(1) == b.skip(1) {
            assert(a =~= seq![a[0]] + a.skip(1));
            assert(b =~= seq![b[0]] + b.skip(1));
        }
    } else if a.len() > 0 {
        before_is_strict(a.skip(1), b);
    } else {
        assert(b.len() == 0 ==> a =~= b);
    }
}

proof fn before_is_transitive(a: Seq<char>, b: Seq<char>, c: Seq<char>)
    requires
        stands_before(a, b),
        stands_before(b, c),
    ensures
        stands_before(a, c),
    decreases a.len(),
{
    if a.len() > 0 && b.len() > 0 && c.len() > 0 && a[0] == b[0] && b[0] == c[0] {
        before_is_transitive(a.skip(1), b.skip(1), c.skip(1));
    }
}

fn is_before(a: &str, b: &str) -> (r: bool)
    ensures
        r == stands_before(a@, b@),
{
    let va = crate::text::chars_of(a);
    let vb = crate::text::chars_of(b);
    let mut i: usize = 0;
    assert(va@.skip(0) =~= va@);
    assert(vb@.skip(0) =~= vb@);
    while i < va.len() && i < vb.len()
        invariant
            i <= va@.len(),
            i <= vb@.len(),
            va@ == a@,
            vb@ == b@,
            stands_before(va@.skip(i as int), vb@.skip(i as int)) == stands_before(va@, vb@),
        decreases va@.len() - i,
    {
        assert(va@.skip(i as int).skip(1) =~= va@.skip(i as int + 1));
        assert(vb@.skip(i as int).skip(1) =~= vb@.skip(i as int + 1));
        if va[i] != vb[i] {
            return va[i] < vb[i];
        }
        i = i + 1;
    }
    i < vb.len()
}

/// Whether names stand in order, none of them twice.
pub open spec fn in_order(names: Seq<Seq<char>>) -> bool {
    forall|i: int, j: int|
        0 <= i < j < names.len() ==> stands_before(#[trigger] names[i], #[trigger] names[j])
}

/// The machines that are being dialled, in the order of their names.
#[derive(Clone, Debug, PartialEq, Eq)]
pub struct Dialling {
    names: Vec<String>,
}

impl View for Dialling {
    type V = Seq<Seq<char>>;

    closed spec fn view(&self) -> Seq<Seq<char>> {
        texts(self.names@)
    }
}

impl Dialling {
    /// Whether the machines stand in order, none of them twice.
    pub open spec fn wf(self) -> bool {
        in_order(self@)
    }

    /// No machine is being dialled.
    pub fn new() -> (d: Dialling)
        ensures
            d@ == Seq::<Seq<char>>::empty(),
            d.wf(),
    {
        let d = Dialling { names: Vec::new() };
        assert(d@ =~= Seq::<Seq<char>>::empty());
        d
    }

    /// Whether a machine is being dialled.
    pub fn contains(&self, name: &str) -> (r: bool)
        ensures
            r == self@.contains(name@),
    {
        contains(&self.names, name)
    }

    /// The machines that are being dialled, in order.
    pub fn names(&self) -> (r: &Vec<String>)
        ensures
            texts(r@) == self@,
    {
        &self.names
    }

    /// Notes that a machine is being dialled.
    pub fn insert(&mut self, name: String)
        requires
            old(self).wf(),
        ensures
            final(self).wf(),
            final(self)@.to_set() == old(self)@.to_set().insert(name@),
    {
        if self.contains(name.as_str()) {
            proof {
                let i = choose|i: int| 0 <= i < self@.len() && self@[i] == name@;
                assert(self@.to_set().contains(name@));
                assert(self@.to_set() =~= self@.to_set().insert(name@));
            }
            return;
        }
        let ghost before = self@;
        let mut i: usize = 0;
        while i < self.names.len() && is_before(self.names[i].as_str(), name.as_str())
            invariant
                i <= self.names@.len(),
                self@ == before,
                forall|j: int| 0 <= j < i ==> stands_before(#[trigger] self@[j], name@),
            decreases self.names@.len() - i,
        {
            i = i + 1;
        }
        let ghost at = i as int;
        proof {
            if at < before.len() {
                before_is_strict(before[at], name@);
                assert(before[at] != name@);
                assert forall|j: int| at <= j < before.len() implies stands_before(
                    name@,
                    #[trigger] before[j],
                ) by {
                    if j > at {
                        before_is_transitive(name@, before[at], before[j]);
                    }
                }
            }
        }
        let ghost word = name@;
        self.names.insert(i, name);
        proof {
            assert(self@ =~= before.insert(at, word));
            assert forall|x: int, y: int| 0 <= x < y < self@.len() implies stands_before(
                #[trigger] self@[x],
                #[trigger] self@[y],
            ) by {
                let ox = if x < at {
                    x
                } else {
                    x - 1
                };
                let oy = if y < at {
                    y
                } else {
                    y - 1
                };
                if x != at && y != at {
                    assert(self@[x] == before[ox]);
                    assert(self@[y] == before[oy]);
                } else if x == at {
                    assert(self@[y] == before[oy]);
                } else {
                    assert(self@[x] == before[ox]);
                }
            }
            assert forall|s: Seq<char>| self@.to_set().contains(s) == before.to_set().insert(
                word,
            ).contains(s) by {
                if self@.contains(s) {
                    let k = choose|k: int| 0 <= k < self@.len() && self@[k] == s;
                    if k < at {
                        assert(before[k] == s);
                    } else if k > at {
                        assert(before[k - 1] == s);
                    }
                }
                if before.contains(s) {
                    let k = choose|k: int| 0 <= k < before.len() && before[k] == s;
                    if k < at {
                        assert(self@[k] == s);
                    } else {
                        assert(self@[k + 1] == s);
                    }
                }
                assert(self@[at] == word);
            }
            assert(self@.to_set() =~= before.to_set().insert(word));
        }
    }

    /// Notes that a machine is no longer being dialled.
    pub fn remove(&mut self, name: &str)
        requires
            old(self).wf(),
        ensures
            final(self).wf(),
            final(self)@.to_set() == old(self)@.to_set().remove(name@),
    {
        let ghost before = self@;
        proof {
            crate::text::first_index_is_first(self@, name@);
        }
        match crate::text::position(&self.names, name) {
            Some(i) => {
                self.names.remove(i);
                proof {
                    let at = i as int;
                    assert(self@ =~= before.remove(at));
                    assert forall|x: int, y: int| 0 <= x < y < self@.len() implies stands_before(
                        #[trigger] self@[x],
                        #[trigger] self@[y],
                    ) by {
                        let ox = if x < at {
                            x
                        } else {
                            x + 1
                        };
                        let oy = if y < at {
                            y
                        } else {
                            y + 1
                        };
                        assert(self@[x] == before[ox] && self@[y] == before[oy]);
                    }
                    assert forall|s: Seq<char>| self@.to_set().contains(s)
                        == before.to_set().remove(name@).contains(s) by {
                        if self@.contains(s) {
                            let k = choose|k: int| 0 <= k < self@.len() && self@[k] == s;
                            let ok = if k < at {
                                k
                            } else {
                                k + 1
                            };
                            assert(before[ok] == s);
                            if s == name@ {
                                before_is_strict(name@, name@);
                                if ok < at {
                                    assert(stands_before(before[ok], before[at]));
                                } else {
                                    assert(stands_before(before[at], before[ok]));
                                }
                            }
                        }
                        if before.contains(s) && s != name@ {
                            let k = choose|k: int| 0 <= k < before.len() && before[k] == s;
                            if k < at {
                                assert(self@[k] == s);
                            } else {
                                assert(self@[k - 1] == s);
                            }
                        }
                    }
                    assert(self@.to_set() =~= before.to_set().remove(name@));
                }
            },
            None => {
                proof {
                    assert(!before.contains(name@));
                    assert(before.to_set() =~= before.to_set().remove(name@));
                }
            },
        }
    }
}

/// Whether a machine is among those that are connected.
pub open spec fn is_connected(hosts: Seq<Option<String>>, target: Seq<char>) -> bool {
    opt_texts(hosts).contains(Some(target))
}

fn connected(hosts: &Vec<Option<String>>, target: &str) -> (r: bool)
    ensures
        r == is_connected(hosts@, target@),
{
    match host_place(hosts, target) {
        Some(_) => true,
        None => false,
    }
}

/// The first place of a machine among those that are connected.
pub open spec fn place_of(hosts: Seq<Option<Seq<char>>>, host: Seq<char>) -> Option<int>
    decreases hosts.len(),
{
    if hosts.len() == 0 {
        None
    } else {
        match place_of(hosts.drop_last(), host) {
            Some(i) => Some(i),
            None => if hosts.last() == Some(host) {
                Some(hosts.len() - 1)
            } else {
                None
            },
        }
    }
}

proof fn place_of_settled(hosts: Seq<Option<Seq<char>>>, host: Seq<char>, i: int)
    requires
        0 <= i < hosts.len(),
        place_of(hosts.take(i), host) is None,
        hosts[i] == Some(host),
    ensures
        place_of(hosts, host) == Some(i),
    decreases hosts.len(),
{
    if i == hosts.len() - 1 {
        assert(hosts.drop_last() =~= hosts.take(i));
    } else {
        assert(hosts.drop_last().take(i) =~= hosts.take(i));
        place_of_settled(hosts.drop_last(), host, i);
    }
}

/// A machine that is connected has a place, and one that has a place is
/// connected.
pub proof fn a_connected_machine_has_a_place(hosts: Seq<Option<Seq<char>>>, host: Seq<char>)
    ensures
        match place_of(hosts, host) {
            Some(i) => 0 <= i < hosts.len() && hosts[i] == Some(host),
            None => !hosts.contains(Some(host)),
        },
    decreases hosts.len(),
{
    if hosts.len() > 0 {
        a_connected_machine_has_a_place(hosts.drop_last(), host);
        if place_of(hosts, host) is None && hosts.contains(Some(host)) {
            let j = choose|j: int| 0 <= j < hosts.len() && hosts[j] == Some(host);
            assert(hosts.drop_last()[j] == Some(host));
        }
    }
}

/// Where a machine stands among those that are connected.
pub fn host_place(hosts: &Vec<Option<String>>, host: &str) -> (r: Option<usize>)
    ensures
        match r {
            Some(i) => place_of(opt_texts(hosts@), host@) == Some(i as int) && i < hosts@.len()
                && opt_text(hosts@[i as int]) == Some(host@) && is_connected(hosts@, host@),
            None => place_of(opt_texts(hosts@), host@) is None && !is_connected(hosts@, host@),
        },
{
    let mut i: usize = 0;
    while i < hosts.len()
        invariant
            i <= hosts@.len(),
            place_of(opt_texts(hosts@).take(i as int), host@) is None,
        decreases hosts@.len() - i,
    {
        assert(opt_texts(hosts@).take(i as int + 1).drop_last() =~= opt_texts(hosts@).take(i as int));
        let found = match &hosts[i] {
            Some(h) => same(h.as_str(), host),
            None => false,
        };
        if found {
            proof {
                assert(opt_texts(hosts@)[i as int] == Some(host@));
                place_of_settled(opt_texts(hosts@), host@, i as int);
            }
            return Some(i);
        }
        i = i + 1;
    }
    proof {
        assert(opt_texts(hosts@).take(i as int) =~= opt_texts(hosts@));
        a_connected_machine_has_a_place(opt_texts(hosts@), host@);
    }
    None
}

/// Whether a machine is to be dialled: it is neither here nor on its way.
pub open spec fn dials(target: Seq<char>, hosts: Seq<Option<String>>, dialling: Seq<Seq<char>>) -> bool {
    !is_connected(hosts, target) && !dialling.contains(target)
}

/// Whether a machine is to be dialled.
pub fn should_dial(target: &str, hosts: &Vec<Option<String>>, dialling: &Dialling) -> (r: bool)
    ensures
        r == dials(target@, hosts@, dialling@),
{
    !connected(hosts, target) && !dialling.contains(target)
}

/// Whether the announcement of a machine has it dialled: only where machines
/// are attached by themselves.
pub fn announcement_dials(
    target: &str,
    hosts: &Vec<Option<String>>,
    dialling: &Dialling,
    auto: bool,
) -> (r: bool)
    ensures
        r == (auto && dials(target@, hosts@, dialling@)),
{
    auto && should_dial(target, hosts, dialling)
}

/// A machine that announced itself: what its pane was reached by, and what the
/// machine thinks it is reached by.
#[derive(Clone, Debug, PartialEq, Eq)]
pub struct Announcement {
    pub hint: String,
    pub ssh_target: String,
    pub socket: String,
    pub ssh_args: Vec<String>,
}

/// An announcement that says nothing about the way back.
#[derive(Clone, Copy, Debug, PartialEq, Eq, Structural)]
pub struct NoWayBack;

impl NoWayBack {
    /// What is said about it.
    pub fn message(self) -> (s: String)
        ensures
            s@ == "a machine announced itself but said nothing about how to reach it"@,
    {
        "a machine announced itself but said nothing about how to reach it".to_owned()
    }
}

/// The way back to a machine that announced itself: what its pane was reached
/// by, and otherwise its own guess.
pub fn announced_target(a: &Announcement) -> (r: Result<&str, NoWayBack>)
    ensures
        match r {
            Ok(t) => t@ == (if a.ssh_target@.len() > 0 {
                a.ssh_target@
            } else {
                a.hint@
            }) && t@.len() > 0,
            Err(_) => a.ssh_target@.len() == 0 && a.hint@.len() == 0,
        },
{
    let target = if a.ssh_target.as_str().is_empty() {
        a.hint.as_str()
    } else {
        a.ssh_target.as_str()
    };
    if target.is_empty() {
        Err(NoWayBack)
    } else {
        Ok(target)
    }
}

/// What is remembered of a machine while it is being dialled: the name it will
/// go by, whether to write it down once it is here, whether it was here
/// before, and how it is reached.
#[derive(Clone, Debug, PartialEq, Eq)]
pub struct DialMeta {
    pub label: String,
    pub remember: bool,
    pub reconnect: bool,
    pub args: Vec<String>,
    pub socket_path: Option<String>,
}

/// Notes that a machine is being dialled, and what is to be remembered of it.
pub fn begin_dial(
    target: &str,
    meta: DialMeta,
    dialling: &mut Dialling,
    dial_meta: &mut Named<DialMeta>,
)
    requires
        old(dialling).wf(),
        old(dial_meta).wf(),
    ensures
        final(dialling).wf(),
        final(dial_meta).wf(),
        final(dialling)@.to_set() == old(dialling)@.to_set().insert(target@),
        final(dial_meta)@ == old(dial_meta)@.insert(target@, meta),
{
    dialling.insert(target.to_owned());
    dial_meta.insert(target, meta);
}

/// Asks for a machine by name. It is dialled unless it is here or on its way;
/// whichever it is, the view says so.
pub fn connect_machine(
    target: &str,
    hosts: &Vec<Option<String>>,
    view: &mut Bench,
    dialling: &mut Dialling,
    dial_meta: &mut Named<DialMeta>,
) -> (r: bool)
    requires
        old(dialling).wf(),
        old(dial_meta).wf(),
    ensures
        final(dialling).wf(),
        final(dial_meta).wf(),
        r == dials(target@, hosts@, old(dialling)@),
        final(view)@ == (BenchOf {
            flash: Some(
                if is_connected(hosts@, target@) {
                    target@ + " is already in the tab bar"@
                } else if old(dialling)@.contains(target@) {
                    target@ + " is already connecting"@
                } else {
                    "connecting to "@ + target@ + "…"@
                },
            ),
            ..old(view)@
        }),
        !r ==> final(dialling)@ == old(dialling)@ && final(dial_meta)@ == old(dial_meta)@,
        r ==> {
            &&& final(dialling)@.to_set() == old(dialling)@.to_set().insert(target@)
            &&& final(dial_meta)@.contains_key(target@)
            &&& final(dial_meta)@ == old(dial_meta)@.insert(target@, final(dial_meta)@[target@])
            &&& final(dial_meta)@[target@].label@ == target@
            &&& final(dial_meta)@[target@].remember
            &&& !final(dial_meta)@[target@].reconnect
            &&& final(dial_meta)@[target@].args@.len() == 0
            &&& final(dial_meta)@[target@].socket_path is None
        },
{
    if connected(hosts, target) {
        view.flash = Some(cat(target, " is already in the tab bar"));
        return false;
    }
    if dialling.contains(target) {
        view.flash = Some(cat(target, " is already connecting"));
        return false;
    }
    view.flash = Some(cat3("connecting to ", target, "…"));
    let meta = DialMeta {
        label: target.to_owned(),
        remember: true,
        reconnect: false,
        args: Vec::new(),
        socket_path: None,
    };
    begin_dial(target, meta, dialling, dial_meta);
    true
}

/// A machine that has been dialled is not dialled again before it is here or
/// has failed: what dialling notes is what a second attempt is refused for.
pub proof fn a_machine_is_not_dialled_twice(
    target: Seq<char>,
    other: Seq<char>,
    hosts: Seq<Option<String>>,
    before: Dialling,
    after: Dialling,
)
    requires
        before.wf(),
        after@.to_set() == before@.to_set().insert(target),
    ensures
        !dials(target, hosts, after@),
        other != target ==> dials(other, hosts, after@) == dials(other, hosts, before@),
{
    assert(after@.to_set().contains(target));
    assert(after@.contains(target));
    if other != target {
        assert(after@.to_set().contains(other) == before@.to_set().contains(other));
    }
}

/// A connection to a machine that this client opened: the socket it leads to,
/// and whether it is still alive.
#[derive(Clone, Debug, PartialEq, Eq)]
pub struct Forward {
    pub socket: String,
    pub alive: bool,
}

/// Whether one of the connections leads to a socket.
pub open spec fn has_forward(forwards: Seq<Forward>, socket: Seq<char>) -> bool {
    exists|i: int| 0 <= i < forwards.len() && (#[trigger] forwards[i]).socket@ == socket
}

/// The connections that do not lead to a socket.
pub open spec fn others(forwards: Seq<Forward>, socket: Seq<char>) -> Seq<Forward>
    decreases forwards.len(),
{
    if forwards.len() == 0 {
        Seq::empty()
    } else {
        let before = others(forwards.drop_last(), socket);
        if forwards.last().socket@ == socket {
            before
        } else {
            before.push(forwards.last())
        }
    }
}

proof fn others_of_none(forwards: Seq<Forward>, socket: Seq<char>)
    requires
        !has_forward(forwards, socket),
    ensures
        others(forwards, socket) == forwards,
    decreases forwards.len(),
{
    if forwards.len() > 0 {
        assert(forwards[forwards.len() - 1].socket@ != socket);
        assert(!has_forward(forwards.drop_last(), socket)) by {
            if has_forward(forwards.drop_last(), socket) {
                let i = choose|i: int|
                    0 <= i < forwards.drop_last().len() && (
                    #[trigger] forwards.drop_last()[i]).socket@ == socket;
                assert(forwards[i].socket@ == socket);
            }
        }
        others_of_none(forwards.drop_last(), socket);
        assert(forwards.drop_last().push(forwards.last()) =~= forwards);
    } else {
        assert(others(forwards, socket) =~= forwards);
    }
}

fn find_forward(forwards: &Vec<Forward>, socket: &str) -> (r: Option<usize>)
    ensures
        match r {
            Some(i) => i < forwards@.len() && forwards@[i as int].socket@ == socket@ && has_forward(
                forwards@,
                socket@,
            ) && forall|j: int| 0 <= j < i ==> (#[trigger] forwards@[j]).socket@ != socket@,
            None => !has_forward(forwards@, socket@),
        },
{
    let mut i: usize = 0;
    while i < forwards.len()
        invariant
            i <= forwards@.len(),
            forall|j: int| 0 <= j < i ==> (#[trigger] forwards@[j]).socket@ != socket@,
        decreases forwards@.len() - i,
    {
        if same(forwards[i].socket.as_str(), socket) {
            assert(forwards@[i as int].socket@ == socket@);
            return Some(i);
        }
        i = i + 1;
    }
    None
}

/// Lets go of the connections to a socket.
pub fn drop_forwards(forwards: &mut Vec<Forward>, socket: &str)
    ensures
        final(forwards)@ == others(old(forwards)@, socket@),
{
    let ghost all = forwards@;
    let mut kept: Vec<Forward> = Vec::new();
    let mut i: usize = 0;
    assert(all.take(0) =~= Seq::<Forward>::empty());
    while i < forwards.len()
        invariant
            i <= forwards@.len(),
            forwards@ == all,
            kept@ == others(all.take(i as int), socket@),
        decreases forwards@.len() - i,
    {
        assert(all.take(i as int + 1).drop_last() =~= all.take(i as int));
        assert(all.take(i as int + 1).last() == all[i as int]);
        if !same(forwards[i].socket.as_str(), socket) {
            kept.push(Forward { socket: forwards[i].socket.clone(), alive: forwards[i].alive });
        }
        i = i + 1;
    }
    assert(all.take(i as int) =~= all);
    *forwards = kept;
}

/// Why a machine was not dropped.
#[derive(Clone, Debug, PartialEq, Eq)]
pub enum DisconnectError {
    NotConnected { host: String },
    NotALink,
    NoSocket,
    NotOurs { host: String },
}

impl DisconnectError {
    /// What is said about it.
    pub open spec fn said(self) -> Seq<char> {
        match self {
            DisconnectError::NotConnected { host } => host@ + " is not connected"@,
            DisconnectError::NotALink => "this machine is not a link to drop"@,
            DisconnectError::NoSocket => "no socket for that machine"@,
            DisconnectError::NotOurs { host } => host@ + " is not one we dialled"@,
        }
    }

    /// What is said about it.
    pub fn message(&self) -> (s: String)
        ensures
            s@ == self.said(),
    {
        match self {
            DisconnectError::NotConnected { host } => cat(host.as_str(), " is not connected"),
            DisconnectError::NotALink => "this machine is not a link to drop".to_owned(),
            DisconnectError::NoSocket => "no socket for that machine".to_owned(),
            DisconnectError::NotOurs { host } => cat(host.as_str(), " is not one we dialled"),
        }
    }
}

/// Where a place in a list has gone once another was taken out; the place that
/// was taken out is nowhere.
pub open spec fn place_after_removal(held: Option<usize>, removed: usize) -> Option<usize> {
    match held {
        Some(b) => if b == removed {
            None
        } else if b > removed {
            Some((b - 1) as usize)
        } else {
            Some(b)
        },
        None => None,
    }
}

/// Where a place in a list has gone once another was taken out.
pub fn index_after_removal(held: Option<usize>, removed: usize) -> (r: Option<usize>)
    ensures
        r == place_after_removal(held, removed),
{
    match held {
        Some(b) => if b == removed {
            None
        } else if b > removed {
            Some(b - 1)
        } else {
            Some(b)
        },
        None => None,
    }
}

/// A place that is held follows what stands there when another is taken out.
pub proof fn a_held_place_follows_what_is_there<T>(list: Seq<T>, held: usize, removed: usize)
    requires
        held < list.len() <= usize::MAX,
        removed < list.len(),
    ensures
        place_after_removal(Some(held), removed) matches Some(now) ==> now < list.len() - 1
            && list.remove(removed as int)[now as int] == list[held as int],
        place_after_removal(Some(held), removed) is None <==> held == removed,
{
}

/// A view once a machine was dropped from the tab bar: on the first tab, with
/// nothing held of what has gone.
pub open spec fn view_without(v: BenchModel, d: usize, host: Seq<char>) -> BenchModel {
    BenchOf {
        browse_daemon: place_after_removal(v.browse_daemon, d),
        tab: 0,
        flash: Some(host + " disconnected"@),
        ..let_go(v)
    }
}

/// Whether a machine can be dropped: it has a name, and it is on a connection
/// of this client's own.
pub open spec fn can_drop(
    d: int,
    hosts: Seq<Option<String>>,
    sockets: Seq<String>,
    forwards: Seq<Forward>,
) -> bool {
    d < hosts.len() && hosts[d] is Some && d < sockets.len() && has_forward(forwards, sockets[d]@)
}

/// Drops a machine. Only one that this client dialled can be dropped; one that
/// is this machine, has no socket or is on a connection of someone else's is
/// refused, and then nothing changes.
pub fn disconnect_daemon(
    d: usize,
    daemons: &mut Vec<Daemon>,
    hosts: &mut Vec<Option<String>>,
    sockets: &mut Vec<String>,
    forwards: &mut Vec<Forward>,
    view: &mut Bench,
) -> (r: Result<String, DisconnectError>)
    requires
        can_drop(d as int, old(hosts)@, old(sockets)@, old(forwards)@) ==> d < old(daemons)@.len(),
    ensures
        ({
            let host = if d < old(hosts)@.len() {
                opt_text(old(hosts)@[d as int])
            } else {
                None
            };
            match r {
                Ok(h) => {
                    &&& host == Some(h@)
                    &&& can_drop(d as int, old(hosts)@, old(sockets)@, old(forwards)@)
                    &&& final(forwards)@ == others(old(forwards)@, old(sockets)@[d as int]@)
                    &&& final(daemons)@ == old(daemons)@.remove(d as int)
                    &&& final(hosts)@ == old(hosts)@.remove(d as int)
                    &&& final(sockets)@ == old(sockets)@.remove(d as int)
                    &&& final(view)@ == view_without(old(view)@, d, h@)
                },
                Err(e) => {
                    &&& final(forwards)@ == old(forwards)@
                    &&& final(daemons)@ == old(daemons)@
                    &&& final(hosts)@ == old(hosts)@
                    &&& final(sockets)@ == old(sockets)@
                    &&& final(view)@ == old(view)@
                    &&& match e {
                        DisconnectError::NotConnected { host } => false,
                        DisconnectError::NotALink => host is None,
                        DisconnectError::NoSocket => host is Some && d >= old(sockets)@.len(),
                        DisconnectError::NotOurs { host: h } => host == Some(h@) && d < old(sockets)@.len() && !has_forward(old(forwards)@, old(sockets)@[d as int]@),
                    }
                },
            }
        }),
{
    if d >= hosts.len() {
        return Err(DisconnectError::NotALink);
    }
    let host = match &hosts[d] {
        Some(h) => h.clone(),
        None => {
            return Err(DisconnectError::NotALink);
        },
    };
    if d >= sockets.len() {
        return Err(DisconnectError::NoSocket);
    }
    let socket = sockets[d].clone();
    if find_forward(forwards, socket.as_str()).is_none() {
        return Err(DisconnectError::NotOurs { host });
    }
    drop_forwards(forwards, socket.as_str());
    daemons.remove(d);
    hosts.remove(d);
    sockets.remove(d);
    view.browse_daemon = index_after_removal(view.browse_daemon, d);
    reset_sel(view);
    view.tab = 0;
    view.flash = Some(cat(host.as_str(), " disconnected"));
    Ok(host)
}

/// Drops a machine by its name.
pub fn disconnect_host(
    host: &str,
    daemons: &mut Vec<Daemon>,
    hosts: &mut Vec<Option<String>>,
    sockets: &mut Vec<String>,
    forwards: &mut Vec<Forward>,
    view: &mut Bench,
) -> (r: Result<String, DisconnectError>)
    requires
        place_of(opt_texts(old(hosts)@), host@) matches Some(d) ==> can_drop(
            d,
            old(hosts)@,
            old(sockets)@,
            old(forwards)@,
        ) ==> d < old(daemons)@.len(),
    ensures
        match r {
            Ok(h) => {
                &&& h@ == host@
                &&& place_of(opt_texts(old(hosts)@), host@) matches Some(d) && d < old(sockets)@.len() && has_forward(old(forwards)@, old(sockets)@[d]@) && final(forwards)@
                    == others(old(forwards)@, old(sockets)@[d]@) && final(daemons)@ == old(daemons)@.remove(d) && final(hosts)@ == old(hosts)@.remove(d) && final(sockets)@ == old(sockets)@.remove(d) && final(view)@ == view_without(old(view)@, d as usize, host@)
            },
            Err(e) => {
                &&& final(forwards)@ == old(forwards)@
                &&& final(daemons)@ == old(daemons)@
                &&& final(hosts)@ == old(hosts)@
                &&& final(sockets)@ == old(sockets)@
                &&& final(view)@ == old(view)@
                &&& match e {
                    DisconnectError::NotConnected { host: h } => h@ == host@ && !is_connected(
                        old(hosts)@,
                        host@,
                    ),
                    DisconnectError::NotALink => false,
                    DisconnectError::NoSocket => place_of(opt_texts(old(hosts)@), host@) matches Some(
                        d,
                    ) && d >= old(sockets)@.len(),
                    DisconnectError::NotOurs { host: h } => h@ == host@ && (place_of(
                        opt_texts(old(hosts)@),
                        host@,
                    ) matches Some(d) && d < old(sockets)@.len() && !has_forward(
                        old(forwards)@,
                        old(sockets)@[d]@,
                    )),
                }
            },
        },
{
    match host_place(hosts, host) {
        Some(d) => disconnect_daemon(d, daemons, hosts, sockets, forwards, view),
        None => Err(DisconnectError::NotConnected { host: host.to_owned() }),
    }
}

/// Says what became of what was written down about a machine that was dropped:
/// `outcome` is whether there was something to strike out, or why it could not
/// be.
pub fn forget_machine(host: &str, outcome: Result<bool, String>, view: &mut Bench)
    ensures
        final(view)@ == (match outcome {
            Ok(true) => BenchOf {
                flash: Some(host@ + " disconnected — forgotten"@),
                ..old(view)@
            },
            Ok(false) => old(view)@,
            Err(e) => BenchOf {
                flash: Some(
                    host@ + " disconnected, but its [[remote]] block could not be removed: "@ + e@,
                ),
                ..old(view)@
            },
        }),
{
    match outcome {
        Ok(true) => {
            view.flash = Some(cat(host, " disconnected — forgotten"));
        },
        Ok(false) => {},
        Err(e) => {
            view.flash = Some(
                cat3(
                    host,
                    " disconnected, but its [[remote]] block could not be removed: ",
                    e.as_str(),
                ),
            );
        },
    }
}

/// A machine that is connected, and whether this client opened the connection.
#[derive(Clone, Debug, PartialEq, Eq)]
pub struct Connected {
    pub host: String,
    pub ours: bool,
}

/// The machines among the first of the hosts, and which of them are ours.
pub open spec fn machines_among(
    hosts: Seq<Option<String>>,
    sockets: Seq<String>,
    forwards: Seq<Forward>,
    n: int,
) -> Seq<(Seq<char>, bool)>
    decreases n,
{
    if n <= 0 {
        Seq::empty()
    } else {
        let before = machines_among(hosts, sockets, forwards, n - 1);
        match hosts[n - 1] {
            Some(h) => before.push(
                (h@, n - 1 < sockets.len() && has_forward(forwards, sockets[n - 1]@)),
            ),
            None => before,
        }
    }
}

/// What a list of connected machines says.
pub open spec fn connected_model(v: Seq<Connected>) -> Seq<(Seq<char>, bool)> {
    Seq::new(v.len(), |i: int| (v[i].host@, v[i].ours))
}

/// The machines that are connected, without this one.
pub fn connected_machines(
    hosts: &Vec<Option<String>>,
    sockets: &Vec<String>,
    forwards: &Vec<Forward>,
) -> (out: Vec<Connected>)
    ensures
        connected_model(out@) == machines_among(
            hosts@,
            sockets@,
            forwards@,
            hosts@.len() as int,
        ),
{
    let mut out: Vec<Connected> = Vec::new();
    let mut d: usize = 0;
    assert(connected_model(out@) =~= Seq::<(Seq<char>, bool)>::empty());
    while d < hosts.len()
        invariant
            d <= hosts@.len(),
            connected_model(out@) == machines_among(hosts@, sockets@, forwards@, d as int),
        decreases hosts@.len() - d,
    {
        if let Some(host) = &hosts[d] {
            let ours = d < sockets.len() && find_forward(forwards, sockets[d].as_str()).is_some();
            let m = Connected { host: host.clone(), ours };
            let ghost before = out@;
            out.push(m);
            assert(connected_model(out@) =~= connected_model(before).push((m.host@, m.ours)));
        }
        d = d + 1;
    }
    out
}

/// A machine that the configuration of ssh names, and what it says of it.
#[derive(Clone, Debug, PartialEq, Eq)]
pub struct SshHost {
    pub alias: String,
    pub detail: Option<String>,
}

/// The value of the row that asks for a destination to be typed.
pub open spec fn type_destination() -> Seq<char> {
    ":type"@
}

/// What the value of a row that drops a machine begins with.
pub open spec fn disconnect_mark() -> Seq<char> {
    ":disconnect "@
}

/// What the value of a row of a machine on its way begins with.
pub open spec fn connecting_mark() -> Seq<char> {
    ":connecting "@
}

/// What the value of a row of a machine that is not ours to drop begins with.
pub open spec fn keep_mark() -> Seq<char> {
    ":keep "@
}

/// A row of the machine picker: what it says, and what choosing it means.
pub struct HostRow {
    pub item: Seq<char>,
    pub value: Seq<char>,
}

/// The row of a machine that is connected.
pub open spec fn connected_row(m: (Seq<char>, bool)) -> HostRow {
    if m.1 {
        HostRow {
            item: "* "@ + m.0 + "  —  connected, enter to disconnect"@,
            value: disconnect_mark() + m.0,
        }
    } else {
        HostRow {
            item: "* "@ + m.0 + "  —  connected on a forward of its own"@,
            value: keep_mark() + m.0,
        }
    }
}

/// The row of a machine that is being dialled.
pub open spec fn dialling_row(name: Seq<char>) -> HostRow {
    HostRow { item: "· "@ + name + "  —  connecting…"@, value: connecting_mark() + name }
}

/// The row of a machine that can be dialled.
pub open spec fn offered_row(h: SshHost) -> HostRow {
    HostRow {
        item: match h.detail {
            Some(d) => "  "@ + h.alias@ + "  —  "@ + d@,
            None => "  "@ + h.alias@,
        },
        value: h.alias@,
    }
}

/// Whether a machine is offered: it is neither connected nor being dialled.
pub open spec fn is_offered(
    h: SshHost,
    connected: Seq<(Seq<char>, bool)>,
    dialling: Seq<Seq<char>>,
) -> bool {
    !(exists|i: int| 0 <= i < connected.len() && (#[trigger] connected[i]).0 == h.alias@)
        && !dialling.contains(h.alias@)
}

/// The rows of the machines that are offered, of the first of those named.
pub open spec fn offered_rows(
    hosts: Seq<SshHost>,
    connected: Seq<(Seq<char>, bool)>,
    dialling: Seq<Seq<char>>,
) -> Seq<HostRow>
    decreases hosts.len(),
{
    if hosts.len() == 0 {
        Seq::empty()
    } else {
        let before = offered_rows(hosts.drop_last(), connected, dialling);
        if is_offered(hosts.last(), connected, dialling) {
            before.push(offered_row(hosts.last()))
        } else {
            before
        }
    }
}

/// The last row of the machine picker.
pub open spec fn typed_row(had_config: bool) -> HostRow {
    HostRow {
        item: if had_config {
            "  type a destination…"@
        } else {
            "  type a destination  —  no Host entries in ~/.ssh/config"@
        },
        value: type_destination(),
    }
}

/// The rows of the machine picker: those that are connected, those on their
/// way, those that can be dialled, and one to type any other.
pub open spec fn host_rows(
    hosts: Seq<SshHost>,
    connected: Seq<(Seq<char>, bool)>,
    dialling: Seq<Seq<char>>,
) -> Seq<HostRow> {
    Seq::new(connected.len(), |i: int| connected_row(connected[i])) + Seq::new(
        dialling.len(),
        |i: int| dialling_row(dialling[i]),
    ) + offered_rows(hosts, connected, dialling) + seq![typed_row(hosts.len() > 0)]
}

/// The machine picker.
pub open spec fn host_list(rows: Seq<HostRow>) -> OverlayModel {
    OverlayModel::List(
        ListOverlayOf {
            title: "MACHINES"@,
            items: Seq::new(rows.len(), |i: int| rows[i].item),
            values: Some(Seq::new(rows.len(), |i: int| rows[i].value)),
            sel: 0,
            kind: ListKindOf::Host,
        },
    )
}

/// Whether two lists hold what some rows say and mean.
spec fn rows_written(rows: Seq<HostRow>, items: Seq<String>, values: Seq<String>) -> bool {
    &&& items.len() == rows.len()
    &&& values.len() == rows.len()
    &&& forall|i: int|
        0 <= i < rows.len() ==> (#[trigger] rows[i]).item == items[i]@ && rows[i].value
            == values[i]@
}

fn write_row(
    Ghost(rows): Ghost<Seq<HostRow>>,
    Ghost(row): Ghost<HostRow>,
    items: &mut Vec<String>,
    values: &mut Vec<String>,
    item: String,
    value: String,
)
    requires
        rows_written(rows, old(items)@, old(values)@),
        row.item == item@,
        row.value == value@,
    ensures
        rows_written(rows.push(row), final(items)@, final(values)@),
{
    items.push(item);
    values.push(value);
}

/// Builds the machine picker.
pub fn host_overlay(hosts: Vec<SshHost>, connected: &Vec<Connected>, dialling: &Dialling) -> (o: Overlay)
    ensures
        o@ == host_list(host_rows(hosts@, connected_model(connected@), dialling@)),
{
    let ghost here = connected_model(connected@);
    let ghost rows: Seq<HostRow> = Seq::empty();
    let mut items: Vec<String> = Vec::new();
    let mut values: Vec<String> = Vec::new();
    let ghost first = Seq::new(here.len(), |i: int| connected_row(here[i]));
    let mut i: usize = 0;
    assert(rows =~= first.take(0));
    while i < connected.len()
        invariant
            i <= connected@.len(),
            here == connected_model(connected@),
            first == Seq::new(here.len(), |i: int| connected_row(here[i])),
            rows == first.take(i as int),
            rows_written(rows, items@, values@),
        decreases connected@.len() - i,
    {
        let host = connected[i].host.as_str();
        let ghost row = connected_row(here[i as int]);
        assert(first[i as int] == row);
        assert(here[i as int] == (connected@[i as int].host@, connected@[i as int].ours));
        if connected[i].ours {
            write_row(
                Ghost(rows),
                Ghost(row),
                &mut items,
                &mut values,
                cat3("* ", host, "  —  connected, enter to disconnect"),
                cat(":disconnect ", host),
            );
        } else {
            write_row(
                Ghost(rows),
                Ghost(row),
                &mut items,
                &mut values,
                cat3("* ", host, "  —  connected on a forward of its own"),
                cat(":keep ", host),
            );
        }
        proof {
            assert(rows.push(row) =~= first.take(i as int + 1));
            rows = rows.push(row);
        }
        i = i + 1;
    }
    assert(first.take(i as int) =~= first);
    let waiting = dialling.names();
    let ghost second = Seq::new(dialling@.len(), |i: int| dialling_row(dialling@[i]));
    let mut j: usize = 0;
    assert(rows =~= first + second.take(0));
    while j < waiting.len()
        invariant
            j <= waiting@.len(),
            texts(waiting@) == dialling@,
            second == Seq::new(dialling@.len(), |i: int| dialling_row(dialling@[i])),
            rows == first + second.take(j as int),
            rows_written(rows, items@, values@),
        decreases waiting@.len() - j,
    {
        let host = waiting[j].as_str();
        let ghost row = dialling_row(dialling@[j as int]);
        assert(second[j as int] == row);
        assert(dialling@[j as int] == waiting@[j as int]@);
        write_row(
            Ghost(rows),
            Ghost(row),
            &mut items,
            &mut values,
            cat3("· ", host, "  —  connecting…"),
            cat(":connecting ", host),
        );
        proof {
            assert(rows.push(row) =~= first + second.take(j as int + 1));
            rows = rows.push(row);
        }
        j = j + 1;
    }
    assert(second.take(j as int) =~= second);
    let ghost head = rows;
    let mut k: usize = 0;
    assert(hosts@.take(0) =~= Seq::<SshHost>::empty());
    assert(rows =~= head + offered_rows(hosts@.take(0), here, dialling@));
    while k < hosts.len()
        invariant
            k <= hosts@.len(),
            here == connected_model(connected@),
            rows == head + offered_rows(hosts@.take(k as int), here, dialling@),
            rows_written(rows, items@, values@),
        decreases hosts@.len() - k,
    {
        let h = &hosts[k];
        assert(hosts@.take(k as int + 1).drop_last() =~= hosts@.take(k as int));
        assert(hosts@.take(k as int + 1).last() == hosts@[k as int]);
        let mut taken = false;
        let mut c: usize = 0;
        while c < connected.len()
            invariant
                c <= connected@.len(),
                here == connected_model(connected@),
                taken == (exists|i: int| 0 <= i < c && (#[trigger] here[i]).0 == h.alias@),
            decreases connected@.len() - c,
        {
            assert(here[c as int].0 == connected@[c as int].host@);
            if same(connected[c].host.as_str(), h.alias.as_str()) {
                taken = true;
            }
            c = c + 1;
        }
        if !taken && !dialling.contains(h.alias.as_str()) {
            let ghost row = offered_row(*h);
            let item = match &h.detail {
                Some(d) => {
                    let mut s = cat3("  ", h.alias.as_str(), "  —  ");
                    s.append(d.as_str());
                    s
                },
                None => cat("  ", h.alias.as_str()),
            };
            write_row(
                Ghost(rows),
                Ghost(row),
                &mut items,
                &mut values,
                item,
                h.alias.clone(),
            );
            proof {
                assert(rows.push(row) =~= head + offered_rows(
                    hosts@.take(k as int + 1),
                    here,
                    dialling@,
                ));
                rows = rows.push(row);
            }
        }
        k = k + 1;
    }
    assert(hosts@.take(k as int) =~= hosts@);
    let ghost last = typed_row(hosts@.len() > 0);
    let item = if hosts.len() > 0 {
        "  type a destination…".to_owned()
    } else {
        "  type a destination  —  no Host entries in ~/.ssh/config".to_owned()
    };
    write_row(Ghost(rows), Ghost(last), &mut items, &mut values, item, ":type".to_owned());
    proof {
        rows = rows.push(last);
        assert(rows =~= host_rows(hosts@, here, dialling@));
        assert(texts(items@) =~= Seq::new(rows.len(), |i: int| rows[i].item));
        assert(texts(values@) =~= Seq::new(rows.len(), |i: int| rows[i].value));
    }
    Overlay::List(
        ListOverlayOf {
            title: "MACHINES".to_owned(),
            items,
            values: Some(values),
            sel: 0,
            kind: ListKindOf::Host,
        },
    )
}

/// Shows the machines that are connected, on their way, or named by the
/// configuration of ssh.
pub fn host_picker(
    named: Vec<SshHost>,
    hosts: &Vec<Option<String>>,
    sockets: &Vec<String>,
    forwards: &Vec<Forward>,
    dialling: &Dialling,
) -> (o: Overlay)
    ensures
        o@ == host_list(
            host_rows(
                named@,
                machines_among(hosts@, sockets@, forwards@, hosts@.len() as int),
                dialling@,
            ),
        ),
{
    let connected = connected_machines(hosts, sockets, forwards);
    host_overlay(named, &connected, dialling)
}

proof fn offered_rows_are_offered(
    hosts: Seq<SshHost>,
    connected: Seq<(Seq<char>, bool)>,
    dialling: Seq<Seq<char>>,
)
    ensures
        forall|i: int|
            0 <= i < offered_rows(hosts, connected, dialling).len() ==> {
                let value = (#[trigger] offered_rows(hosts, connected, dialling)[i]).value;
                !dialling.contains(value) && forall|c: int|
                    0 <= c < connected.len() ==> (#[trigger] connected[c]).0 != value
            },
    decreases hosts.len(),
{
    if hosts.len() > 0 {
        offered_rows_are_offered(hosts.drop_last(), connected, dialling);
        let before = offered_rows(hosts.drop_last(), connected, dialling);
        let rows = offered_rows(hosts, connected, dialling);
        assert forall|i: int| 0 <= i < rows.len() implies {
            let value = (#[trigger] rows[i]).value;
            !dialling.contains(value) && forall|c: int|
                0 <= c < connected.len() ==> (#[trigger] connected[c]).0 != value
        } by {
            if i < before.len() {
                assert(rows[i] == before[i]);
            } else {
                assert(rows[i] == offered_row(hosts.last()));
            }
        }
    }
}

/// The picker never offers to dial a machine that is here or on its way: the
/// rows after those of the machines that are, up to the last, name none of
/// them. And there is always a last row, to type one.
pub proof fn a_machine_that_is_here_is_not_offered(
    hosts: Seq<SshHost>,
    connected: Seq<(Seq<char>, bool)>,
    dialling: Seq<Seq<char>>,
)
    ensures
        ({
            let rows = host_rows(hosts, connected, dialling);
            &&& rows.len() > connected.len() + dialling.len()
            &&& rows.last() == typed_row(hosts.len() > 0)
            &&& forall|i: int|
                connected.len() + dialling.len() <= i < rows.len() - 1 ==> {
                    let value = (#[trigger] rows[i]).value;
                    !dialling.contains(value) && forall|c: int|
                        0 <= c < connected.len() ==> (#[trigger] connected[c]).0 != value
                }
        }),
{
    offered_rows_are_offered(hosts, connected, dialling);
    let rows = host_rows(hosts, connected, dialling);
    let offered = offered_rows(hosts, connected, dialling);
    assert forall|i: int| connected.len() + dialling.len() <= i < rows.len() - 1 implies {
        let value = (#[trigger] rows[i]).value;
        !dialling.contains(value) && forall|c: int|
            0 <= c < connected.len() ==> (#[trigger] connected[c]).0 != value
    } by {
        assert(rows[i] == offered[i - connected.len() - dialling.len()]);
    }
}

/// The rows of the picker of machines to open a folder on: each machine's name
/// and how many workspaces it has.
pub open spec fn machine_item(hosts: Seq<Option<String>>, daemons: Seq<Daemon>, d: int) -> Seq<char> {
    let n = daemons[d].tabs@.len();
    crate::roster::machine_name(hosts, d, "this machine"@) + "  —  "@ + decimal(n) + " workspace"@
        + (if n == 1 {
        Seq::empty()
    } else {
        "s"@
    })
}

/// The list of machines to open a folder on. A row's value is the machine's
/// place.
pub open spec fn machine_list(daemons: Seq<Daemon>, hosts: Seq<Option<String>>) -> OverlayModel {
    OverlayOf::List(
        ListOverlayOf {
            title: "OPEN ON WHICH MACHINE"@,
            items: Seq::new(daemons.len(), |d: int| machine_item(hosts, daemons, d)),
            values: Some(Seq::new(daemons.len(), |d: int| decimal(d as nat))),
            sel: 0,
            kind: ListKindOf::Machine,
        },
    )
}

/// Asks which machine to open a folder on.
pub fn machine_picker(daemons: &Vec<Daemon>, hosts: &Vec<Option<String>>) -> (o: Overlay)
    ensures
        o@ == machine_list(daemons@, hosts@),
{
    let mut items: Vec<String> = Vec::new();
    let mut values: Vec<String> = Vec::new();
    let mut d: usize = 0;
    while d < daemons.len()
        invariant
            d <= daemons@.len(),
            items@.len() == d,
            values@.len() == d,
            forall|i: int| 0 <= i < d ==> (#[trigger] items@[i])@ == machine_item(hosts@, daemons@, i),
            forall|i: int| 0 <= i < d ==> (#[trigger] values@[i])@ == decimal(i as nat),
        decreases daemons@.len() - d,
    {
        let n: usize = daemons[d].tabs.len();
        let name = if d < hosts.len() {
            match &hosts[d] {
                Some(h) => h.clone(),
                None => "this machine".to_owned(),
            }
        } else {
            "this machine".to_owned()
        };
        let count = to_decimal(n as u128);
        let mut item = cat3(name.as_str(), "  —  ", count.as_str());
        item.append(" workspace");
        if n != 1 {
            item.append("s");
        } else {
            assert(item@ + Seq::<char>::empty() =~= item@);
        }
        assert(item@ =~= machine_item(hosts@, daemons@, d as int));
        items.push(item);
        values.push(to_decimal(d as u128));
        d = d + 1;
    }
    assert(texts(items@) =~= Seq::new(daemons@.len(), |d: int| machine_item(hosts@, daemons@, d)));
    assert(texts(values@) =~= Seq::new(daemons@.len(), |d: int| decimal(d as nat)));
    Overlay::List(
        ListOverlayOf {
            title: "OPEN ON WHICH MACHINE".to_owned(),
            items,
            values: Some(values),
            sel: 0,
            kind: ListKindOf::Machine,
        },
    )
}

/// A machine that the configuration of this client names.
#[derive(Clone, Debug, PartialEq, Eq)]
pub struct RemoteDef {
    pub name: Option<String>,
    pub host: Option<String>,
    pub socket: Option<String>,
}

/// How a machine that the configuration names reads: its name, where it has
/// one, and how it is reached.
pub open spec fn remote_text(r: RemoteDef) -> Seq<char> {
    let how = match (r.host, r.socket) {
        (Some(h), _) => "ssh "@ + h@,
        (None, Some(s)) => "socket "@ + s@,
        (None, None) => "no host or socket"@,
    };
    match r.name {
        Some(n) => n@ + " — "@ + how,
        None => how,
    }
}

/// How a machine that the configuration names reads.
pub fn remote_label(r: &RemoteDef) -> (s: String)
    ensures
        s@ == remote_text(*r),
{
    let how = match (&r.host, &r.socket) {
        (Some(h), _) => cat("ssh ", h.as_str()),
        (None, Some(s)) => cat("socket ", s.as_str()),
        (None, None) => "no host or socket".to_owned(),
    };
    match &r.name {
        Some(n) => cat3(n.as_str(), " — ", how.as_str()),
        None => how,
    }
}

/// A machine is dialled where it is neither connected nor on its way, and
/// only then.
pub proof fn a_machine_is_dialled_where_it_is_away(
    target: Seq<char>,
    hosts: Seq<Option<String>>,
    dialling: Seq<Seq<char>>,
    i: int,
    j: int,
)
    ensures
        0 <= i < hosts.len() && opt_text(hosts[i]) == Some(target) ==> !dials(
            target,
            hosts,
            dialling,
        ),
        0 <= j < dialling.len() && dialling[j] == target ==> !dials(target, hosts, dialling),
        (forall|i: int| 0 <= i < hosts.len() ==> opt_text(#[trigger] hosts[i]) != Some(target)) && (
        forall|j: int| 0 <= j < dialling.len() ==> #[trigger] dialling[j] != target) ==> dials(
            target,
            hosts,
            dialling,
        ),
{
    if 0 <= i < hosts.len() && opt_text(hosts[i]) == Some(target) {
        assert(opt_texts(hosts)[i] == Some(target));
    }
    if is_connected(hosts, target) {
        let k = choose|k: int|
            0 <= k < opt_texts(hosts).len() && opt_texts(hosts)[k] == Some(target);
        assert(opt_text(hosts[k]) == Some(target));
    }
}

/// A machine stands at the first place that has its name.
pub proof fn a_machine_stands_at_its_first_place(
    hosts: Seq<Option<Seq<char>>>,
    host: Seq<char>,
    i: int,
)
    requires
        0 <= i < hosts.len(),
        hosts[i] == Some(host),
        forall|j: int| 0 <= j < i ==> #[trigger] hosts[j] != Some(host),
    ensures
        place_of(hosts, host) == Some(i),
{
    let before = hosts.take(i);
    a_connected_machine_has_a_place(before, host);
    match place_of(before, host) {
        Some(k) => {
            assert(before[k] == hosts[k]);
        },
        None => {},
    }
    place_of_settled(hosts, host, i);
}

/// Letting go of a socket's connections lets go of all of them and of no
/// other, and the others keep their order.
pub proof fn only_the_connections_of_the_socket_go(
    forwards: Seq<Forward>,
    f: Forward,
    socket: Seq<char>,
)
    ensures
        others(Seq::empty(), socket).len() == 0,
        f.socket@ == socket ==> others(forwards.push(f), socket) == others(forwards, socket),
        f.socket@ != socket ==> others(forwards.push(f), socket) == others(forwards, socket).push(
            f,
        ),
        !has_forward(others(forwards, socket), socket),
    decreases forwards.len(),
{
    assert(forwards.push(f).drop_last() =~= forwards);
    if forwards.len() > 0 {
        only_the_connections_of_the_socket_go(forwards.drop_last(), f, socket);
        let before = others(forwards.drop_last(), socket);
        let all = others(forwards, socket);
        if has_forward(all, socket) {
            let i = choose|i: int| 0 <= i < all.len() && (#[trigger] all[i]).socket@ == socket;
            if i < before.len() {
                assert(before[i].socket@ == socket);
            }
        }
    }
}

/// What is said of a machine that was not dropped.
pub proof fn a_refusal_to_drop_says_why(host: String)
    ensures
        (DisconnectError::NotConnected { host }).said() == host@ + " is not connected"@,
        DisconnectError::NotALink.said() == "this machine is not a link to drop"@,
        DisconnectError::NoSocket.said() == "no socket for that machine"@,
        (DisconnectError::NotOurs { host }).said() == host@ + " is not one we dialled"@,
{
}

/// A machine can be dropped where it has a name and is on a connection of this
/// client's own. What is held of its place is let go of, what is held of a
/// later place moves up by one, and an earlier one stays.
pub proof fn a_dropped_machine_leaves_the_others_in_place(
    v: BenchModel,
    d: usize,
    host: Seq<char>,
    held: usize,
)
    ensures
        view_without(v, d, host).tab == 0,
        view_without(v, d, host).staged is None,
        view_without(v, d, host).flash == Some(host + " disconnected"@),
        view_without(v, d, host).agent_sel == 0 && view_without(v, d, host).proc_sel == 0
            && view_without(v, d, host).changes_sel == 0,
        v.browse_daemon == Some(held) && held < d ==> view_without(v, d, host).browse_daemon == Some(
            held,
        ),
        v.browse_daemon == Some(held) && held > d ==> view_without(v, d, host).browse_daemon == Some(
            (held - 1) as usize,
        ),
        v.browse_daemon == Some(d) ==> view_without(v, d, host).browse_daemon is None,
        view_without(v, d, host).page == v.page,
{
}

/// A machine can be dropped where it has a name, and its socket is one that
/// this client opened a connection to.
pub proof fn only_our_own_machines_can_be_dropped(
    d: int,
    hosts: Seq<Option<String>>,
    sockets: Seq<String>,
    forwards: Seq<Forward>,
    i: int,
)
    requires
        0 <= d < hosts.len(),
        d < sockets.len(),
    ensures
        hosts[d] is None ==> !can_drop(d, hosts, sockets, forwards),
        hosts[d] is Some && 0 <= i < forwards.len() && forwards[i].socket@ == sockets[d]@
            ==> can_drop(d, hosts, sockets, forwards),
        (forall|j: int| 0 <= j < forwards.len() ==> (#[trigger] forwards[j]).socket@ != sockets[d]@)
            ==> !can_drop(d, hosts, sockets, forwards),
{
}

/// The machines that are connected are listed by their names in order, and
/// each says whether this client opened its connection. This machine, which
/// has no name, is not listed.
pub proof fn the_connected_machines_are_listed(
    hosts: Seq<Option<String>>,
    sockets: Seq<String>,
    forwards: Seq<Forward>,
    n: int,
    name: String,
)
    requires
        0 <= n < hosts.len(),
    ensures
        machines_among(hosts, sockets, forwards, 0).len() == 0,
        hosts[n] is None ==> machines_among(hosts, sockets, forwards, n + 1) == machines_among(
            hosts,
            sockets,
            forwards,
            n,
        ),
        hosts[n] == Some(name) ==> machines_among(hosts, sockets, forwards, n + 1)
            == machines_among(hosts, sockets, forwards, n).push(
            (name@, n < sockets.len() && has_forward(forwards, sockets[n]@)),
        ),
{
}

/// The list of machines shows those that are connected, then those on their
/// way, then those that can be dialled, and last the row to type one. What a
/// row says and what choosing it means fit: one of ours is disconnected, and
/// one that is not ours or is on its way is left alone.
pub proof fn a_row_of_the_machines_means_what_it_says(
    hosts: Seq<SshHost>,
    connected: Seq<(Seq<char>, bool)>,
    dialling: Seq<Seq<char>>,
    i: int,
    j: int,
)
    ensures
        ({
            let rows = host_rows(hosts, connected, dialling);
            let at = connected.len() + j;
            &&& 0 <= i < connected.len() && connected[i].1 ==> rows[i].item == "* "@ + connected[i].0
                + "  —  connected, enter to disconnect"@ && rows[i].value == ":disconnect "@
                + connected[i].0
            &&& 0 <= i < connected.len() && !connected[i].1 ==> rows[i].item == "* "@
                + connected[i].0 + "  —  connected on a forward of its own"@ && rows[i].value
                == ":keep "@ + connected[i].0
            &&& 0 <= j < dialling.len() ==> rows[at].item == "· "@ + dialling[j]
                + "  —  connecting…"@ && rows[at].value == ":connecting "@ + dialling[j]
            &&& rows.last().value == ":type"@
            &&& hosts.len() > 0 ==> rows.last().item == "  type a destination…"@
            &&& hosts.len() == 0 ==> rows.last().item
                == "  type a destination  —  no Host entries in ~/.ssh/config"@
            &&& host_list(rows) matches OverlayOf::List(l) && l.title == "MACHINES"@ && l.sel == 0
                && l.kind is Host && l.items.len() == rows.len() && (0 <= i < rows.len()
                ==> l.items[i] == rows[i].item && (l.values matches Some(values) && values[i]
                == rows[i].value))
        }),
{
}

/// A machine that ssh knows is offered in its order, by its name and what is
/// known of it, unless it is connected or on its way; choosing it dials it by
/// its name.
pub proof fn a_machine_that_is_away_is_offered(
    hosts: Seq<SshHost>,
    h: SshHost,
    connected: Seq<(Seq<char>, bool)>,
    dialling: Seq<Seq<char>>,
    detail: String,
)
    ensures
        offered_rows(Seq::empty(), connected, dialling).len() == 0,
        (exists|i: int| 0 <= i < connected.len() && (#[trigger] connected[i]).0 == h.alias@)
            || dialling.contains(h.alias@) ==> offered_rows(hosts.push(h), connected, dialling)
            == offered_rows(hosts, connected, dialling),
        (forall|i: int| 0 <= i < connected.len() ==> (#[trigger] connected[i]).0 != h.alias@)
            && !dialling.contains(h.alias@) ==> {
            let rows = offered_rows(hosts.push(h), connected, dialling);
            &&& rows.drop_last() == offered_rows(hosts, connected, dialling)
            &&& rows.last().value == h.alias@
            &&& h.detail is None ==> rows.last().item == "  "@ + h.alias@
            &&& h.detail == Some(detail) ==> rows.last().item == "  "@ + h.alias@ + "  —  "@
                + detail@
        },
{
    assert(hosts.push(h).drop_last() =~= hosts);
    let before = offered_rows(hosts, connected, dialling);
    assert(before.push(offered_row(h)).drop_last() =~= before);
}

/// Which machine to open a folder on is asked by each machine's name and how
/// many workspaces it has, and a row means the machine's place.
pub proof fn a_machine_to_open_on_is_chosen_by_its_place(
    daemons: Seq<Daemon>,
    hosts: Seq<Option<String>>,
    d: int,
)
    requires
        0 <= d < daemons.len(),
    ensures
        machine_list(daemons, hosts) matches OverlayOf::List(l) && l.title
            == "OPEN ON WHICH MACHINE"@ && l.kind is Machine && l.sel == 0 && l.items.len()
            == daemons.len() && (l.values matches Some(values) && values.len() == daemons.len()
            && values[d] == decimal(d as nat)) && l.items[d] == crate::roster::machine_name(
            hosts,
            d,
            "this machine"@,
        ) + "  —  "@ + decimal(daemons[d].tabs@.len()) + " workspace"@ + (if daemons[d].tabs@.len()
            == 1 {
            Seq::empty()
        } else {
            "s"@
        }),
{
}

/// A machine of the configuration reads by its name and how it is reached: by
/// ssh where it has a host, by its socket otherwise.
pub proof fn a_remote_reads_by_how_it_is_reached(r: RemoteDef, n: String, h: String, s: String)
    ensures
        r.name is None && r.host == Some(h) ==> remote_text(r) == "ssh "@ + h@,
        r.name is None && r.host is None && r.socket == Some(s) ==> remote_text(r) == "socket "@
            + s@,
        r.name is None && r.host is None && r.socket is None ==> remote_text(r)
            == "no host or socket"@,
        r.name == Some(n) && r.host == Some(h) ==> remote_text(r) == n@ + " — "@ + ("ssh "@ + h@),
        r.name == Some(n) && r.host is None && r.socket == Some(s) ==> remote_text(r) == n@ + " — "@
            + ("socket "@ + s@),
{
}

/// Names stand in order by their first character that differs, and one that
/// another begins with stands before it.
pub proof fn names_stand_in_order_by_their_characters(
    start: Seq<char>,
    a: char,
    b: char,
    x: Seq<char>,
    y: Seq<char>,
)
    requires
        a < b,
    ensures
        stands_before(start + seq![a] + x, start + seq![b] + y),
        !stands_before(start + seq![b] + y, start + seq![a] + x),
        stands_before(start, start + seq![a] + x),
        !stands_before(start, start),
    decreases start.len(),
{
    let p = start + seq![a] + x;
    let q = start + seq![b] + y;
    if start.len() > 0 {
        let rest = start.skip(1);
        assert(p[0] == start[0] && q[0] == start[0]);
        assert(p.skip(1) =~= rest + seq![a] + x);
        assert(q.skip(1) =~= rest + seq![b] + y);
        names_stand_in_order_by_their_characters(rest, a, b, x, y);
    } else {
        assert(p[0] == a && q[0] == b);
    }
}

} // verus!
