//! Machines that drop out by themselves are dialled again, at once and then
//! after longer and longer waits; and what a dial that succeeds leads to.
//! Times are in milliseconds.
use vstd::arithmetic::power2::{lemma2_to64, lemma_pow2_pos, lemma_pow2_unfold, pow2};
use vstd::prelude::*;

use crate::machines::{
    begin_dial, drop_forwards, is_connected, others, place_of, should_dial, DialMeta, Dialling, Forward,
};
use crate::named::Named;
use crate::roster::{Daemon, RemoteDial};
use crate::text::{cat, opt_text, opt_texts, same};
use crate::types::{Bench, BenchOf};

verus! {

/// The first wait before a machine is dialled again.
pub const REDIAL_MIN: u64 = 5_000;

/// The longest wait before a machine is dialled again.
pub const REDIAL_MAX: u64 = 300_000;

/// How many losses in a row a connection that is still alive is given.
pub const LOSSES_BEFORE_REDIAL: u32 = 2;

/// What is known of a machine that has dropped out: how often it was lost, how
/// long the last wait was, and when it may be dialled next.
#[derive(Clone, Copy, Debug, PartialEq, Eq, Structural)]
pub struct Downed {
    pub losses: u32,
    pub backoff: u64,
    pub next_try: Option<u128>,
}

/// A machine that has not dropped out.
pub open spec fn never_lost() -> Downed {
    Downed { losses: 0, backoff: 0, next_try: None }
}

/// The wait that follows another: the first is the shortest, and each is twice
/// the one before it, up to the longest.
pub open spec fn longer(backoff: u64) -> u64 {
    if backoff == 0 {
        REDIAL_MIN
    } else if 2 * backoff < REDIAL_MAX {
        (2 * backoff) as u64
    } else {
        REDIAL_MAX
    }
}

/// What a loss at `now` makes of what is known of a machine, and whether it is
/// to be dialled.
pub open spec fn lost_again(d: Downed, forward_alive: bool, now: u64) -> (Downed, bool) {
    let counted = Downed { losses: (d.losses + 1) as u32, ..d };
    let patient = forward_alive && d.losses + 1 < LOSSES_BEFORE_REDIAL;
    let early = match d.next_try {
        Some(t) => now < t,
        None => false,
    };
    if patient || early {
        (counted, false)
    } else {
        (
            Downed {
                backoff: longer(d.backoff),
                next_try: Some((now + longer(d.backoff)) as u128),
                ..counted
            },
            true,
        )
    }
}

/// Whether the waits are within bounds, and one is running only if there was
/// one.
pub open spec fn sound(d: Downed) -> bool {
    &&& d.backoff == 0 || REDIAL_MIN <= d.backoff <= REDIAL_MAX
    &&& d.next_try is Some <==> d.backoff > 0
}

/// What is known of a machine by its name.
pub open spec fn known(downed: Map<Seq<char>, Downed>, host: Seq<char>) -> Downed {
    if downed.contains_key(host) {
        downed[host]
    } else {
        never_lost()
    }
}

/// Whether what is known of every machine is sound.
pub open spec fn all_sound(downed: Map<Seq<char>, Downed>) -> bool {
    forall|h: Seq<char>| downed.contains_key(h) ==> sound(#[trigger] downed[h])
}

/// Notes that a machine was lost, and says whether it is to be dialled now.
pub fn redial_due(downed: &mut Named<Downed>, host: &str, forward_alive: bool, now: u64) -> (r: bool)
    requires
        old(downed).wf(),
        all_sound(old(downed)@),
        known(old(downed)@, host@).losses < u32::MAX,
    ensures
        final(downed).wf(),
        all_sound(final(downed)@),
        final(downed)@ == old(downed)@.insert(
            host@,
            lost_again(known(old(downed)@, host@), forward_alive, now).0,
        ),
        r == lost_again(known(old(downed)@, host@), forward_alive, now).1,
{
    let mut d: Downed = match downed.get(host) {
        Some(d) => *d,
        None => Downed { losses: 0, backoff: 0, next_try: None },
    };
    assert(sound(d));
    d.losses = d.losses + 1;
    let early = match d.next_try {
        Some(t) => (now as u128) < t,
        None => false,
    };
    let due = !(forward_alive && d.losses < LOSSES_BEFORE_REDIAL) && !early;
    if due {
        d.backoff = if d.backoff == 0 {
            REDIAL_MIN
        } else if 2 * d.backoff < REDIAL_MAX {
            2 * d.backoff
        } else {
            REDIAL_MAX
        };
        d.next_try = Some(now as u128 + d.backoff as u128);
    }
    downed.insert(host, d);
    due
}

/// A hiccup on a connection that is still alive costs no dial, and a
/// connection that is dead is dialled again at once.
pub proof fn the_first_loss(now: u64)
    ensures
        !lost_again(never_lost(), true, now).1,
        lost_again(never_lost(), false, now).1,
        lost_again(lost_again(never_lost(), true, now).0, true, now).1,
{
}

/// A machine that stays down is dialled after waits that double up to the
/// longest: once it was dialled, it is not dialled before the wait is over,
/// and once it is dialled again the wait has grown, or is the longest.
pub proof fn a_machine_that_stays_down_backs_off(d: Downed, alive: bool, now: u64, later: u64)
    requires
        sound(d),
        d.losses < u32::MAX - 1,
        lost_again(d, alive, now).1,
    ensures
        ({
            let (once, _) = lost_again(d, alive, now);
            let (twice, dialled) = lost_again(once, alive, later);
            &&& sound(once)
            &&& REDIAL_MIN <= once.backoff <= REDIAL_MAX
            &&& later < now + once.backoff ==> !dialled
            &&& dialled ==> twice.backoff == longer(once.backoff) && (twice.backoff == 2
                * once.backoff || twice.backoff == REDIAL_MAX)
            &&& once.losses >= 1 && later >= now + once.backoff ==> dialled
        }),
{
}

/// What is known of a machine after some losses in a row, each by whether its
/// connection was still alive and when it was; and how many of them it was
/// dialled after.
pub open spec fn lost_often(losses: Seq<(bool, u64)>) -> (Downed, nat)
    decreases losses.len(),
{
    if losses.len() == 0 {
        (never_lost(), 0)
    } else {
        let (d, dials) = lost_often(losses.drop_last());
        let (after, dialled) = lost_again(d, losses.last().0, losses.last().1);
        (
            after,
            if dialled {
                dials + 1
            } else {
                dials
            },
        )
    }
}

/// The wait after a machine was dialled `dials` times: the shortest, twice as
/// long with every dial, and never longer than the longest.
pub open spec fn wait_after(dials: nat) -> int {
    let wait = REDIAL_MIN * pow2((dials - 1) as nat);
    if wait < REDIAL_MAX {
        wait
    } else {
        REDIAL_MAX as int
    }
}

proof fn the_wait_doubles(dials: nat)
    requires
        dials > 0,
    ensures
        wait_after(1) == REDIAL_MIN,
        REDIAL_MIN <= wait_after(dials) <= REDIAL_MAX,
        wait_after(dials + 1) == longer(wait_after(dials) as u64),
{
    lemma2_to64();
    lemma_pow2_pos((dials - 1) as nat);
    lemma_pow2_unfold(dials);
    let before = pow2((dials - 1) as nat);
    assert(REDIAL_MIN * before >= REDIAL_MIN) by (nonlinear_arith)
        requires
            before >= 1,
    ;
    assert(REDIAL_MIN * (2 * before) == 2 * (REDIAL_MIN * before)) by (nonlinear_arith);
}

/// A machine that was not known to be down and then stays down waits five
/// seconds after its first dial, twice as long after each that follows, and
/// never longer than five minutes. The wait counts from the dial: the next loss
/// leads to a dial exactly when it is over.
pub proof fn the_wait_after_every_dial(losses: Seq<(bool, u64)>, alive: bool, later: u64)
    requires
        losses.len() < u32::MAX,
    ensures
        ({
            let (d, dials) = lost_often(losses);
            &&& sound(d)
            &&& d.losses == losses.len()
            &&& dials <= losses.len()
            &&& dials == 0 ==> d.backoff == 0 && d.next_try is None
            &&& dials > 0 ==> {
                &&& d.backoff == wait_after(dials)
                &&& d.backoff <= REDIAL_MAX
                &&& d.next_try matches Some(due) && (lost_again(d, alive, later).1 <==> later
                    >= due)
            }
            &&& losses.len() > 0 && dials > lost_often(losses.drop_last()).1 ==> d.next_try
                == Some((losses.last().1 + wait_after(dials)) as u128)
        }),
    decreases losses.len(),
{
    if losses.len() > 0 {
        let (alive, now) = losses.last();
        the_wait_after_every_dial(losses.drop_last(), alive, now);
        let (before, dials) = lost_often(losses.drop_last());
        if dials > 0 {
            the_wait_doubles(dials);
        } else {
            the_wait_doubles(1);
        }
    }
}

/// What happens to one machine changes nothing of what is known of another,
/// and a machine that came back starts afresh.
pub proof fn machines_back_off_independently(
    downed: Map<Seq<char>, Downed>,
    host: Seq<char>,
    other: Seq<char>,
    alive: bool,
    now: u64,
)
    requires
        host != other,
    ensures
        known(downed.insert(host, lost_again(known(downed, host), alive, now).0), other) == known(
            downed,
            other,
        ),
        known(downed.remove(host), host) == never_lost(),
        known(downed.remove(host), other) == known(downed, other),
{
}

/// How a machine that was dialled once is dialled again.
#[derive(Clone, Debug, PartialEq, Eq)]
pub struct DialSpec {
    pub target: String,
    pub args: Vec<String>,
    pub socket_path: Option<String>,
}

/// The first of the connections to a socket, if there is one, says whether it
/// is alive.
pub open spec fn forward_alive(forwards: Seq<Forward>, socket: Seq<char>) -> bool
    decreases forwards.len(),
{
    if forwards.len() == 0 {
        false
    } else if forwards[0].socket@ == socket {
        forwards[0].alive
    } else {
        forward_alive(forwards.skip(1), socket)
    }
}

fn is_alive(forwards: &Vec<Forward>, socket: &str) -> (r: bool)
    ensures
        r == forward_alive(forwards@, socket@),
{
    let mut i: usize = 0;
    assert(forwards@.skip(0) =~= forwards@);
    while i < forwards.len()
        invariant
            i <= forwards@.len(),
            forward_alive(forwards@.skip(i as int), socket@) == forward_alive(forwards@, socket@),
        decreases forwards@.len() - i,
    {
        assert(forwards@.skip(i as int).skip(1) =~= forwards@.skip(i as int + 1));
        if same(forwards[i].socket.as_str(), socket) {
            return forwards[i].alive;
        }
        i = i + 1;
    }
    false
}

fn clone_texts(v: &Vec<String>) -> (r: Vec<String>)
    ensures
        r@ == v@,
{
    let mut r: Vec<String> = Vec::new();
    let mut i: usize = 0;
    while i < v.len()
        invariant
            i <= v@.len(),
            r@ == v@.take(i as int),
        decreases v@.len() - i,
    {
        r.push(v[i].clone());
        i = i + 1;
        assert(r@ =~= v@.take(i as int));
    }
    assert(v@.take(i as int) =~= v@);
    r
}

/// Whether a machine that was lost is one that can be dialled again: it has a
/// name and a socket, it was dialled before, and it is not being dialled.
pub open spec fn can_redial(
    d: usize,
    hosts: Seq<Option<String>>,
    sockets: Seq<String>,
    dialled: Map<Seq<char>, DialSpec>,
    dialling: Seq<Seq<char>>,
) -> bool {
    &&& d < hosts.len()
    &&& d < sockets.len()
    &&& hosts[d as int] matches Some(h) && dialled.contains_key(h@) && !dialling.contains(
        dialled[h@].target@,
    )
}

/// Deals with a machine that was lost: it is dialled again when that is due,
/// and what to dial is given back.
pub fn redial_lost(
    d: usize,
    hosts: &Vec<Option<String>>,
    sockets: &Vec<String>,
    forwards: &mut Vec<Forward>,
    dialled: &Named<DialSpec>,
    downed: &mut Named<Downed>,
    dialling: &mut Dialling,
    dial_meta: &mut Named<DialMeta>,
    view: &mut Bench,
    now: u64,
) -> (r: Option<String>)
    requires
        dialled.wf(),
        old(downed).wf(),
        all_sound(old(downed)@),
        old(dialling).wf(),
        old(dial_meta).wf(),
        d < hosts@.len() ==> (hosts@[d as int] matches Some(h) ==> known(old(downed)@, h@).losses
            < u32::MAX),
    ensures
        final(downed).wf(),
        all_sound(final(downed)@),
        final(dialling).wf(),
        final(dial_meta).wf(),
        ({
            let can = can_redial(d, hosts@, sockets@, dialled@, old(dialling)@);
            let host = hosts@[d as int]->0@;
            let socket = sockets@[d as int]@;
            let (after, due) = lost_again(
                known(old(downed)@, host),
                forward_alive(old(forwards)@, socket),
                now,
            );
            &&& r is Some <==> can && due
            &&& can ==> final(downed)@ == old(downed)@.insert(host, after)
            &&& !can ==> final(downed)@ == old(downed)@
            &&& r is None ==> final(forwards)@ == old(forwards)@ && final(dialling)@ == old(
                dialling,
            )@ && final(dial_meta)@ == old(dial_meta)@ && final(view)@ == old(view)@
            &&& r matches Some(target) ==> {
                &&& target@ == dialled@[host].target@
                &&& final(forwards)@ == others(old(forwards)@, socket)
                &&& final(dialling)@.to_set() == old(dialling)@.to_set().insert(target@)
                &&& final(dial_meta)@.contains_key(target@)
                &&& final(dial_meta)@ == old(dial_meta)@.insert(
                    target@,
                    final(dial_meta)@[target@],
                )
                &&& final(dial_meta)@[target@].label@ == host
                &&& final(dial_meta)@[target@].reconnect
                &&& !final(dial_meta)@[target@].remember
                &&& final(dial_meta)@[target@].args@ == dialled@[host].args@
                &&& final(dial_meta)@[target@].socket_path == dialled@[host].socket_path
                &&& final(view)@ == (BenchOf {
                    flash: Some(host + " went away — reconnecting"@),
                    ..old(view)@
                })
            }
        }),
{
    if d >= hosts.len() {
        return None;
    }
    let host = match &hosts[d] {
        Some(h) => h.clone(),
        None => {
            return None;
        },
    };
    let spec = match dialled.get(host.as_str()) {
        Some(s) => s,
        None => {
            return None;
        },
    };
    if dialling.contains(spec.target.as_str()) {
        return None;
    }
    if d >= sockets.len() {
        return None;
    }
    let alive = is_alive(forwards, sockets[d].as_str());
    if !redial_due(downed, host.as_str(), alive, now) {
        return None;
    }
    drop_forwards(forwards, sockets[d].as_str());
    view.flash = Some(cat(host.as_str(), " went away — reconnecting"));
    let meta = DialMeta {
        label: host,
        remember: false,
        reconnect: true,
        args: clone_texts(&spec.args),
        socket_path: crate::text::clone_opt(&spec.socket_path),
    };
    begin_dial(spec.target.as_str(), meta, dialling, dial_meta);
    Some(spec.target.clone())
}

/// Where a machine that has come up goes: in its old place where it was here
/// before, and at the end of the tab bar otherwise.
pub open spec fn slot_of(meta: DialMeta, hosts: Seq<Option<String>>) -> Option<int> {
    if meta.reconnect {
        place_of(opt_texts(hosts), meta.label@)
    } else {
        None
    }
}

/// Where a machine that has come up goes.
pub fn slot(meta: &DialMeta, hosts: &Vec<Option<String>>) -> (r: Option<usize>)
    ensures
        match r {
            Some(at) => slot_of(*meta, hosts@) == Some(at as int) && at < hosts@.len(),
            None => slot_of(*meta, hosts@) is None,
        },
{
    if meta.reconnect {
        crate::machines::host_place(hosts, meta.label.as_str())
    } else {
        None
    }
}

/// What is said of a machine that has come up. `saved` says whether it was
/// written down, where that was asked for.
pub open spec fn landing_said(meta: DialMeta, back: bool, saved: bool) -> Seq<char> {
    if back {
        meta.label@ + " is back"@
    } else {
        meta.label@ + " connected — its projects are in the tab bar"@ + (if meta.remember && saved {
            " — remembered"@
        } else {
            Seq::empty()
        })
    }
}

/// Takes in a machine that has come up: into its old place where it was here
/// before, which is returned, and otherwise as a new one. How it was dialled is
/// remembered, and what was known of its losses is not.
pub fn land(
    target: &str,
    meta: DialMeta,
    saved: bool,
    daemon: Daemon,
    socket: String,
    daemons: &mut Vec<Daemon>,
    hosts: &mut Vec<Option<String>>,
    sockets: &mut Vec<String>,
    dialled: &mut Named<DialSpec>,
    downed: &mut Named<Downed>,
    view: &mut Bench,
) -> (place: Option<usize>)
    requires
        slot_of(meta, old(hosts)@) matches Some(at) ==> at < old(daemons)@.len() && at < old(
            sockets,
        )@.len(),
        old(dialled).wf(),
        old(downed).wf(),
        all_sound(old(downed)@),
    ensures
        final(dialled).wf(),
        final(downed).wf(),
        all_sound(final(downed)@),
        final(downed)@ == old(downed)@.remove(meta.label@),
        final(dialled)@.contains_key(meta.label@),
        final(dialled)@ == old(dialled)@.insert(meta.label@, final(dialled)@[meta.label@]),
        final(dialled)@[meta.label@].target@ == target@,
        final(dialled)@[meta.label@].args == meta.args,
        final(dialled)@[meta.label@].socket_path == meta.socket_path,
        final(view)@ == (BenchOf {
            flash: Some(landing_said(meta, slot_of(meta, old(hosts)@) is Some, saved)),
            ..old(view)@
        }),
        match slot_of(meta, old(hosts)@) {
            Some(at) => {
                &&& place == Some(at as usize)
                &&& final(daemons)@ == old(daemons)@.update(at, daemon)
                &&& final(sockets)@ == old(sockets)@.update(at, socket)
                &&& final(hosts)@ == old(hosts)@
            },
            None => {
                &&& place is None
                &&& final(daemons)@ == old(daemons)@.push(daemon)
                &&& final(sockets)@ == old(sockets)@.push(socket)
                &&& final(hosts)@ == old(hosts)@.push(Some(meta.label))
            },
        },
{
    let slot: Option<usize> = slot(&meta, hosts);
    let spec = DialSpec { target: target.to_owned(), args: meta.args, socket_path: meta.socket_path };
    dialled.insert(meta.label.as_str(), spec);
    downed.remove(meta.label.as_str());
    match slot {
        Some(at) => {
            daemons.set(at, daemon);
            sockets.set(at, socket);
            view.flash = Some(cat(meta.label.as_str(), " is back"));
        },
        None => {
            let mut said = cat(
                meta.label.as_str(),
                " connected — its projects are in the tab bar",
            );
            if meta.remember && saved {
                said.append(" — remembered");
            } else {
                assert(said@ + Seq::<char>::empty() =~= said@);
            }
            view.flash = Some(said);
            daemons.push(daemon);
            hosts.push(Some(meta.label));
            sockets.push(socket);
        },
    }
    slot
}

/// A machine that comes back keeps its place, and with it every tab's: the
/// names of the machines stay as they were, and no other machine is touched.
pub proof fn a_machine_comes_back_to_its_own_place(
    meta: DialMeta,
    hosts: Seq<Option<String>>,
    daemons: Seq<Daemon>,
    daemon: Daemon,
    other: int,
)
    requires
        meta.reconnect,
        is_connected(hosts, meta.label@),
        hosts.len() <= daemons.len(),
        0 <= other < daemons.len(),
    ensures
        slot_of(meta, hosts) matches Some(at) && 0 <= at < hosts.len() && opt_text(hosts[at]) == Some(
            meta.label@,
        ) && daemons.update(at, daemon).len() == daemons.len() && (other != at ==> daemons.update(
            at,
            daemon,
        )[other] == daemons[other]),
{
    crate::machines::a_connected_machine_has_a_place(opt_texts(hosts), meta.label@);
}

/// The name that a dial goes by when nothing was remembered of it.
pub fn meta_or_plain(target: &str, meta: Option<DialMeta>) -> (m: DialMeta)
    ensures
        meta matches Some(k) ==> m == k,
        meta is None ==> m.label@ == target@ && !m.remember && !m.reconnect && m.args@.len() == 0
            && m.socket_path is None,
{
    match meta {
        Some(m) => m,
        None => DialMeta {
            label: target.to_owned(),
            remember: false,
            reconnect: false,
            args: Vec::new(),
            socket_path: None,
        },
    }
}

/// The machines of a list that are dialled at start: each that is neither
/// connected nor on its way, and does not stand before in the list.
pub open spec fn dialled_at_start(
    remotes: Seq<RemoteDial>,
    hosts: Seq<Option<String>>,
    busy: Set<Seq<char>>,
) -> Seq<Seq<char>>
    decreases remotes.len(),
{
    if remotes.len() == 0 {
        Seq::empty()
    } else {
        let before = dialled_at_start(remotes.drop_last(), hosts, busy);
        let target = remotes.last().target@;
        if is_connected(hosts, target) || busy.contains(target) || before.contains(target) {
            before
        } else {
            before.push(target)
        }
    }
}

/// The first of a list of machines that is reached as a target.
pub open spec fn first_for(remotes: Seq<RemoteDial>, target: Seq<char>) -> Option<RemoteDial>
    decreases remotes.len(),
{
    if remotes.len() == 0 {
        None
    } else {
        match first_for(remotes.drop_last(), target) {
            Some(r) => Some(r),
            None => if remotes.last().target@ == target {
                Some(remotes.last())
            } else {
                None
            },
        }
    }
}

/// Whether a dial goes by what the configuration says of a machine. It is
/// neither written down again nor a machine coming back.
pub open spec fn dials_as(m: DialMeta, r: RemoteDial) -> bool {
    &&& m.label@ == r.label@
    &&& !m.remember
    &&& !m.reconnect
    &&& m.args@ == r.args@
    &&& opt_text(m.socket_path) == opt_text(r.socket_path)
}

/// Notes which machines are dialled at start and how, and gives back what to
/// dial.
pub fn dial_at_start(
    remotes: &Vec<RemoteDial>,
    hosts: &Vec<Option<String>>,
    dialling: &mut Dialling,
    dial_meta: &mut Named<DialMeta>,
) -> (out: Vec<String>)
    requires
        old(dialling).wf(),
        old(dial_meta).wf(),
    ensures
        final(dialling).wf(),
        final(dial_meta).wf(),
        ({
            let busy = old(dialling)@.to_set();
            let dialled = dialled_at_start(remotes@, hosts@, busy);
            &&& crate::text::texts(out@) == dialled
            &&& final(dialling)@.to_set() == busy.union(dialled.to_set())
            &&& final(dial_meta)@.dom() == old(dial_meta)@.dom().union(dialled.to_set())
            &&& forall|t: Seq<char>|
                old(dial_meta)@.contains_key(t) && !dialled.contains(t)
                    ==> #[trigger] final(dial_meta)@[t] == old(dial_meta)@[t]
            &&& forall|t: Seq<char>| #[trigger]
                dialled.contains(t) ==> first_for(remotes@, t) is Some && dials_as(
                    final(dial_meta)@[t],
                    first_for(remotes@, t)->0,
                )
        }),
{
    let ghost busy = dialling@.to_set();
    let ghost known = dial_meta@;
    let mut out: Vec<String> = Vec::new();
    let mut i: usize = 0;
    assert(remotes@.take(0) =~= Seq::<RemoteDial>::empty());
    assert(crate::text::texts(out@) =~= dialled_at_start(remotes@.take(0), hosts@, busy));
    assert(dialling@.to_set() =~= busy.union(
        dialled_at_start(remotes@.take(0), hosts@, busy).to_set(),
    ));
    assert(dial_meta@.dom() =~= known.dom().union(
        dialled_at_start(remotes@.take(0), hosts@, busy).to_set(),
    ));
    while i < remotes.len()
        invariant
            i <= remotes@.len(),
            dialling.wf(),
            dial_meta.wf(),
            crate::text::texts(out@) == dialled_at_start(remotes@.take(i as int), hosts@, busy),
            dialling@.to_set() == busy.union(
                dialled_at_start(remotes@.take(i as int), hosts@, busy).to_set(),
            ),
            dial_meta@.dom() == known.dom().union(
                dialled_at_start(remotes@.take(i as int), hosts@, busy).to_set(),
            ),
            forall|t: Seq<char>|
                known.contains_key(t) && !dialled_at_start(
                    remotes@.take(i as int),
                    hosts@,
                    busy,
                ).contains(t) ==> #[trigger] dial_meta@[t] == known[t],
            forall|t: Seq<char>| #[trigger]
                dialled_at_start(remotes@.take(i as int), hosts@, busy).contains(t) ==> first_for(
                    remotes@.take(i as int),
                    t,
                ) is Some && dials_as(
                    dial_meta@[t],
                    first_for(remotes@.take(i as int), t)->0,
                ),
            forall|t: Seq<char>| #[trigger]
                first_for(remotes@.take(i as int), t) is Some && !is_connected(hosts@, t)
                    && !busy.contains(t) ==> dialled_at_start(
                    remotes@.take(i as int),
                    hosts@,
                    busy,
                ).contains(t),
        decreases remotes@.len() - i,
    {
        let r = &remotes[i];
        let ghost before = dialled_at_start(remotes@.take(i as int), hosts@, busy);
        let ghost sofar = out@;
        proof {
            assert(remotes@.take(i as int + 1).drop_last() =~= remotes@.take(i as int));
            assert(remotes@.take(i as int + 1).last() == remotes@[i as int]);
            assert(dialling@.contains(r.target@) == dialling@.to_set().contains(r.target@));
            assert(before.contains(r.target@) == before.to_set().contains(r.target@));
        }
        if should_dial(r.target.as_str(), hosts, dialling) {
            let meta = DialMeta {
                label: r.label.clone(),
                remember: false,
                reconnect: false,
                args: clone_texts(&r.args),
                socket_path: crate::text::clone_opt(&r.socket_path),
            };
            begin_dial(r.target.as_str(), meta, dialling, dial_meta);
            let word = r.target.clone();
            out.push(word);
            proof {
                let after = before.push(r.target@);
                assert(crate::text::texts(out@) =~= crate::text::texts(sofar).push(word@));
                assert forall|s: Seq<char>| #[trigger] after.contains(s) == (before.contains(s) || s
                    == r.target@) by {
                    if before.contains(s) {
                        let j = choose|j: int| 0 <= j < before.len() && before[j] == s;
                        assert(after[j] == s);
                    }
                    if s == r.target@ {
                        assert(after[before.len() as int] == s);
                    }
                    if after.contains(s) && s != r.target@ {
                        let j = choose|j: int| 0 <= j < after.len() && after[j] == s;
                        assert(before[j] == s);
                    }
                }
                assert(after.to_set() =~= before.to_set().insert(r.target@));
                assert(dialling@.to_set() =~= busy.union(after.to_set()));
                assert(dial_meta@.dom() =~= known.dom().union(after.to_set()));
            }
        }
        proof {
            let after = dialled_at_start(remotes@.take(i as int + 1), hosts@, busy);
            assert forall|t: Seq<char>| #[trigger]
                first_for(remotes@.take(i as int + 1), t) is Some && !is_connected(hosts@, t)
                    && !busy.contains(t) implies after.contains(t) by {
                if first_for(remotes@.take(i as int), t) is Some {
                    assert(before.contains(t));
                }
            }
        }
        i = i + 1;
    }
    assert(remotes@.take(i as int) =~= remotes@);
    out
}

/// The waits in numbers: five seconds, ten, twenty and so on, up to five
/// minutes. A connection that is still alive is given one loss.
pub proof fn a_wait_doubles_from_five_seconds_to_five_minutes(backoff: u64, d: Downed, now: u64)
    ensures
        longer(0) == 5_000,
        0 < backoff < 150_000 ==> longer(backoff) == 2 * backoff,
        backoff >= 150_000 ==> longer(backoff) == 300_000,
        d.losses == 0 ==> !lost_again(d, true, now).1,
        d.losses >= 1 && d.losses < u32::MAX && d.next_try is None ==> lost_again(d, true, now).1,
        d.next_try is None ==> lost_again(d, false, now).1,
        d.losses < u32::MAX ==> lost_again(d, true, now).0.losses == d.losses + 1
            && lost_again(d, false, now).0.losses == d.losses + 1,
        never_lost().losses == 0 && never_lost().backoff == 0 && never_lost().next_try is None,
{
}

/// A loss that does not lead to a dial leaves the wait as it is, and one that
/// does begins the next wait at that moment.
pub proof fn a_wait_begins_with_its_dial(d: Downed, alive: bool, now: u64)
    requires
        d.losses < u32::MAX,
    ensures
        !lost_again(d, alive, now).1 ==> lost_again(d, alive, now).0.backoff == d.backoff
            && lost_again(d, alive, now).0.next_try == d.next_try,
        lost_again(d, alive, now).1 ==> (lost_again(d, alive, now).0.next_try matches Some(due)
            && due == now + lost_again(d, alive, now).0.backoff),
        (d.next_try matches Some(due) && now < due) ==> !lost_again(d, alive, now).1,
{
}

/// What is known of a machine is what was noted of it, and nothing where
/// nothing was.
pub proof fn a_machine_is_known_by_its_name(
    downed: Map<Seq<char>, Downed>,
    host: Seq<char>,
    d: Downed,
)
    ensures
        known(downed.insert(host, d), host) == d,
        !downed.contains_key(host) ==> known(downed, host).losses == 0,
{
}

/// A connection is alive where the first to its socket is, and not where there
/// is none.
pub proof fn a_connection_is_as_alive_as_its_first(
    forwards: Seq<Forward>,
    socket: Seq<char>,
    i: int,
)
    ensures
        0 <= i < forwards.len() && forwards[i].socket@ == socket && (forall|j: int|
            0 <= j < i ==> (#[trigger] forwards[j]).socket@ != socket) ==> forward_alive(
            forwards,
            socket,
        ) == forwards[i].alive,
        (forall|j: int| 0 <= j < forwards.len() ==> (#[trigger] forwards[j]).socket@ != socket)
            ==> !forward_alive(forwards, socket),
    decreases forwards.len(),
{
    if forwards.len() > 0 {
        let rest = forwards.skip(1);
        if 0 < i < forwards.len() && forwards[i].socket@ == socket && (forall|j: int|
            0 <= j < i ==> (#[trigger] forwards[j]).socket@ != socket) {
            assert(forwards[0].socket@ != socket);
            assert(rest[i - 1] == forwards[i]);
            assert forall|j: int| 0 <= j < i - 1 implies (#[trigger] rest[j]).socket@ != socket by {
                assert(rest[j] == forwards[j + 1]);
            }
            a_connection_is_as_alive_as_its_first(rest, socket, i - 1);
        }
        if forall|j: int| 0 <= j < forwards.len() ==> (#[trigger] forwards[j]).socket@ != socket {
            assert(forwards[0].socket@ != socket);
            assert forall|j: int| 0 <= j < rest.len() implies (#[trigger] rest[j]).socket@
                != socket by {
                assert(rest[j] == forwards[j + 1]);
            }
            a_connection_is_as_alive_as_its_first(rest, socket, 0);
        }
    }
}

/// A machine that was lost can be dialled again where it has a name, was
/// dialled before and is not being dialled.
pub proof fn a_lost_machine_is_dialled_again_as_before(
    d: usize,
    hosts: Seq<Option<String>>,
    sockets: Seq<String>,
    dialled: Map<Seq<char>, DialSpec>,
    dialling: Seq<Seq<char>>,
    h: String,
)
    requires
        d < hosts.len(),
        d < sockets.len(),
    ensures
        hosts[d as int] is None ==> !can_redial(d, hosts, sockets, dialled, dialling),
        hosts[d as int] == Some(h) ==> (can_redial(d, hosts, sockets, dialled, dialling)
            <==> dialled.contains_key(h@) && !dialling.contains(dialled[h@].target@)),
{
}

/// A machine that is dialled for the first time goes to the end of the bar,
/// and one that comes back to its place. What is said names it, says which of
/// the two it is, and whether it was remembered.
pub proof fn a_machine_that_came_up_is_said_to_have(
    meta: DialMeta,
    hosts: Seq<Option<String>>,
)
    ensures
        !meta.reconnect ==> slot_of(meta, hosts) is None,
        meta.reconnect ==> slot_of(meta, hosts) == place_of(opt_texts(hosts), meta.label@),
        landing_said(meta, true, true) == meta.label@ + " is back"@,
        landing_said(meta, true, false) == meta.label@ + " is back"@,
        meta.remember ==> landing_said(meta, false, true) == meta.label@
            + " connected — its projects are in the tab bar"@ + " — remembered"@,
        landing_said(meta, false, false) == meta.label@
            + " connected — its projects are in the tab bar"@,
        !meta.remember ==> landing_said(meta, false, true) == meta.label@
            + " connected — its projects are in the tab bar"@,
{
}

/// At the start every machine of the configuration is dialled once, in order,
/// unless it is connected or on its way; and it is dialled by the first entry
/// that names it.
pub proof fn the_configured_machines_are_dialled_once(
    remotes: Seq<RemoteDial>,
    r: RemoteDial,
    hosts: Seq<Option<String>>,
    busy: Set<Seq<char>>,
    target: Seq<char>,
)
    ensures
        dialled_at_start(Seq::empty(), hosts, busy).len() == 0,
        ({
            let before = dialled_at_start(remotes, hosts, busy);
            let after = dialled_at_start(remotes.push(r), hosts, busy);
            &&& is_connected(hosts, r.target@) || busy.contains(r.target@) || before.contains(
                r.target@,
            ) ==> after == before
            &&& !is_connected(hosts, r.target@) && !busy.contains(r.target@) && !before.contains(
                r.target@,
            ) ==> after == before.push(r.target@)
        }),
        first_for(remotes, target) is Some ==> first_for(remotes.push(r), target) == first_for(
            remotes,
            target,
        ),
        first_for(remotes, target) is None && r.target@ == target ==> first_for(
            remotes.push(r),
            target,
        ) == Some(r),
        first_for(remotes, target) is None && r.target@ != target ==> first_for(
            remotes.push(r),
            target,
        ) is None,
        first_for(Seq::empty(), target) is None,
{
    assert(remotes.push(r).drop_last() =~= remotes);
}

} // verus!
