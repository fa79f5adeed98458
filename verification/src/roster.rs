//! The machines a client is connected to, and where each tab, workspace and
//! agent of them is found.
use vstd::prelude::*;

use crate::bench::Counts;
use crate::pages::Docker;
use crate::project::{change_rows, listed_changes, rows_model, Workspace};
use crate::text::{opt_text, opt_texts};
use crate::types::{Bench, BenchModel, BenchOf, Focus, Page, PaneId, SessionId};

verus! {

/// Where a daemon is reached: the machine it is on, unless it is this one, and
/// its socket.
#[derive(Clone, Debug, PartialEq, Eq)]
pub struct Endpoint {
    pub host: Option<String>,
    pub socket: String,
}

/// A machine to be dialled at start: what ssh is told, the name it goes by,
/// and what it takes to reach its socket.
#[derive(Clone, Debug, PartialEq, Eq)]
pub struct RemoteDial {
    pub target: String,
    pub label: String,
    pub args: Vec<String>,
    pub socket_path: Option<String>,
}

/// A tab of a machine: a workspace and the name it goes by.
#[derive(Clone, Debug, PartialEq, Eq)]
pub struct Tab {
    pub id: SessionId,
    pub name: String,
}

/// What is known of a daemon: its tabs, the workspaces it has described, and
/// whether it still answers.
#[derive(Clone, Debug, PartialEq, Eq)]
pub struct Daemon {
    pub tabs: Vec<Tab>,
    pub workspaces: Vec<Workspace>,
    pub connected: bool,
}

/// Where among some workspaces the one with an id stands.
pub open spec fn workspace_at(workspaces: Seq<Workspace>, id: SessionId) -> Option<int>
    decreases workspaces.len(),
{
    if workspaces.len() == 0 {
        None
    } else {
        match workspace_at(workspaces.drop_last(), id) {
            Some(i) => Some(i),
            None => if workspaces.last().id == id {
                Some(workspaces.len() - 1)
            } else {
                None
            },
        }
    }
}

proof fn workspace_at_settled(workspaces: Seq<Workspace>, id: SessionId, i: int)
    requires
        0 <= i < workspaces.len(),
        workspace_at(workspaces.take(i), id) is None,
        workspaces[i].id == id,
    ensures
        workspace_at(workspaces, id) == Some(i),
    decreases workspaces.len(),
{
    if i == workspaces.len() - 1 {
        assert(workspaces.drop_last() =~= workspaces.take(i));
    } else {
        assert(workspaces.drop_last().take(i) =~= workspaces.take(i));
        workspace_at_settled(workspaces.drop_last(), id, i);
    }
}

/// A workspace that is found has the id that was asked for.
pub proof fn workspace_at_has_the_id(workspaces: Seq<Workspace>, id: SessionId)
    ensures
        match workspace_at(workspaces, id) {
            Some(i) => 0 <= i < workspaces.len() && workspaces[i].id == id,
            None => forall|j: int| 0 <= j < workspaces.len() ==> workspaces[j].id != id,
        },
    decreases workspaces.len(),
{
    if workspaces.len() > 0 {
        workspace_at_has_the_id(workspaces.drop_last(), id);
        assert(forall|j: int|
            0 <= j < workspaces.len() - 1 ==> workspaces.drop_last()[j] == workspaces[j]);
    }
}

impl Daemon {
    /// The workspace with an id, as far as the machine has described it.
    pub open spec fn described(self, id: SessionId) -> Option<Workspace> {
        match workspace_at(self.workspaces@, id) {
            Some(i) => Some(self.workspaces@[i]),
            None => None,
        }
    }

    /// The workspace with an id, as far as the machine has described it.
    pub fn workspace(&self, id: SessionId) -> (r: Option<&Workspace>)
        ensures
            match r {
                Some(w) => self.described(id) == Some(*w),
                None => self.described(id) is None,
            },
    {
        let mut i: usize = 0;
        while i < self.workspaces.len()
            invariant
                i <= self.workspaces@.len(),
                workspace_at(self.workspaces@.take(i as int), id) is None,
            decreases self.workspaces@.len() - i,
        {
            assert(self.workspaces@.take(i as int + 1).drop_last() =~= self.workspaces@.take(
                i as int,
            ));
            if self.workspaces[i].id == id {
                proof {
                    workspace_at_settled(self.workspaces@, id, i as int);
                }
                return Some(&self.workspaces[i]);
            }
            i = i + 1;
        }
        assert(self.workspaces@.take(i as int) =~= self.workspaces@);
        None
    }
}

/// The tabs of one daemon, each by the daemon's place and its own.
pub open spec fn own_tabs(d: int, n: nat) -> Seq<(usize, usize)> {
    Seq::new(n, |t: int| (d as usize, t as usize))
}

/// The tabs of all daemons in the order of the tab bar.
pub open spec fn all_tabs(daemons: Seq<Daemon>) -> Seq<(usize, usize)>
    decreases daemons.len(),
{
    if daemons.len() == 0 {
        Seq::empty()
    } else {
        all_tabs(daemons.drop_last()) + own_tabs(
            daemons.len() - 1,
            daemons.last().tabs@.len(),
        )
    }
}

/// Every tab in the bar is a tab of one of the daemons.
pub proof fn tabs_are_of_daemons(daemons: Seq<Daemon>)
    requires
        daemons.len() <= usize::MAX,
        forall|d: int| 0 <= d < daemons.len() ==> (#[trigger] daemons[d]).tabs@.len() <= usize::MAX,
    ensures
        forall|i: int|
            0 <= i < all_tabs(daemons).len() ==> {
                let (d, t) = #[trigger] all_tabs(daemons)[i];
                d < daemons.len() && t < daemons[d as int].tabs@.len()
            },
    decreases daemons.len(),
{
    if daemons.len() > 0 {
        let before = daemons.drop_last();
        assert forall|d: int| 0 <= d < before.len() implies (#[trigger] before[d]).tabs@.len()
            <= usize::MAX by {
            assert(before[d] == daemons[d]);
        }
        tabs_are_of_daemons(before);
        assert forall|i: int| 0 <= i < all_tabs(daemons).len() implies {
            let (d, t) = #[trigger] all_tabs(daemons)[i];
            d < daemons.len() && t < daemons[d as int].tabs@.len()
        } by {
            if i < all_tabs(before).len() {
                assert(all_tabs(daemons)[i] == all_tabs(before)[i]);
                let (d, t) = all_tabs(before)[i];
                assert(before[d as int] == daemons[d as int]);
            } else {
                let own = own_tabs(daemons.len() - 1, daemons.last().tabs@.len());
                assert(all_tabs(daemons)[i] == own[i - all_tabs(before).len()]);
            }
        }
    }
}

/// The tabs of all daemons in the order of the tab bar, each by the place of
/// its daemon and its place among that daemon's tabs.
pub fn tab_index(daemons: &Vec<Daemon>, _hosts: &Vec<Option<String>>) -> (out: Vec<(usize, usize)>)
    ensures
        out@ == all_tabs(daemons@),
        forall|i: int|
            0 <= i < out@.len() ==> (#[trigger] out@[i]).0 < daemons@.len() && out@[i].1
                < daemons@[out@[i].0 as int].tabs@.len(),
{
    let mut out: Vec<(usize, usize)> = Vec::new();
    let mut d: usize = 0;
    assert(daemons@.take(0) =~= Seq::<Daemon>::empty());
    while d < daemons.len()
        invariant
            d <= daemons@.len(),
            out@ == all_tabs(daemons@.take(d as int)),
            forall|i: int|
                0 <= i < out@.len() ==> (#[trigger] out@[i]).0 < daemons@.len() && out@[i].1
                    < daemons@[out@[i].0 as int].tabs@.len(),
        decreases daemons@.len() - d,
    {
        let n: usize = daemons[d].tabs.len();
        let ghost before = out@;
        let mut t: usize = 0;
        while t < n
            invariant
                t <= n,
                d < daemons@.len(),
                n == daemons@[d as int].tabs@.len(),
                out@ == before + own_tabs(d as int, n as nat).take(t as int),
                forall|i: int|
                    0 <= i < out@.len() ==> (#[trigger] out@[i]).0 < daemons@.len() && out@[i].1
                        < daemons@[out@[i].0 as int].tabs@.len(),
            decreases n - t,
        {
            out.push((d, t));
            t = t + 1;
            assert(out@ =~= before + own_tabs(d as int, n as nat).take(t as int));
        }
        assert(own_tabs(d as int, n as nat).take(t as int) =~= own_tabs(d as int, n as nat));
        assert(daemons@.take(d as int + 1).drop_last() =~= daemons@.take(d as int));
        assert(daemons@.take(d as int + 1).last() == daemons@[d as int]);
        d = d + 1;
    }
    assert(daemons@.take(d as int) =~= daemons@);
    out
}

/// The tab a view is on, if there is one.
pub open spec fn tab_of(daemons: Seq<Daemon>, tab: usize) -> Option<(usize, usize)> {
    if tab < all_tabs(daemons).len() {
        Some(all_tabs(daemons)[tab as int])
    } else {
        None
    }
}

/// The daemon that a view acts on: the one whose tab is open, and the first
/// where none is.
pub open spec fn daemon_of(daemons: Seq<Daemon>, tab: usize) -> usize {
    match tab_of(daemons, tab) {
        Some((d, _)) => d,
        None => 0,
    }
}

/// The workspace that is open: its daemon and its id.
pub open spec fn key_of(daemons: Seq<Daemon>, tab: usize) -> Option<(usize, SessionId)> {
    match tab_of(daemons, tab) {
        Some((d, t)) => Some((d, daemons[d as int].tabs@[t as int].id)),
        None => None,
    }
}

/// The workspace that is open, as far as its machine has described it.
pub open spec fn workspace_of(daemons: Seq<Daemon>, tab: usize) -> Option<Workspace> {
    match key_of(daemons, tab) {
        Some((d, id)) => daemons[d as int].described(id),
        None => None,
    }
}

/// The daemon that a view acts on.
pub fn active_daemon(daemons: &Vec<Daemon>, hosts: &Vec<Option<String>>, view: &Bench) -> (r: usize)
    ensures
        r == daemon_of(daemons@, view@.tab),
{
    let tabs = tab_index(daemons, hosts);
    if view.tab < tabs.len() {
        tabs[view.tab].0
    } else {
        0
    }
}

/// The workspace that is open: its daemon and its id.
pub fn active_ws_key(daemons: &Vec<Daemon>, hosts: &Vec<Option<String>>, view: &Bench) -> (r: Option<
    (usize, SessionId),
>)
    ensures
        r == key_of(daemons@, view@.tab),
        r matches Some(k) ==> k.0 < daemons@.len(),
{
    let tabs = tab_index(daemons, hosts);
    if view.tab < tabs.len() {
        let (d, t): (usize, usize) = tabs[view.tab];
        Some((d, daemons[d].tabs[t].id))
    } else {
        None
    }
}

/// The workspace that is open, as far as its machine has described it.
pub fn active_workspace<'a>(
    daemons: &'a Vec<Daemon>,
    hosts: &Vec<Option<String>>,
    view: &Bench,
) -> (r: Option<&'a Workspace>)
    ensures
        match r {
            Some(w) => workspace_of(daemons@, view@.tab) == Some(*w),
            None => workspace_of(daemons@, view@.tab) is None,
        },
{
    match active_ws_key(daemons, hosts, view) {
        Some((d, id)) => daemons[d].workspace(id),
        None => None,
    }
}

/// The daemon whose folders are browsed: the one that was picked for it, where
/// it is still there, and otherwise the one the view acts on.
pub open spec fn browsed_daemon(daemons: Seq<Daemon>, v: BenchModel) -> usize {
    match v.browse_daemon {
        Some(d) => if d < daemons.len() {
            d
        } else {
            daemon_of(daemons, v.tab)
        },
        None => daemon_of(daemons, v.tab),
    }
}

/// The daemon whose folders are browsed.
pub fn browse_daemon(daemons: &Vec<Daemon>, hosts: &Vec<Option<String>>, view: &Bench) -> (r: usize)
    ensures
        r == browsed_daemon(daemons@, view@),
{
    match view.browse_daemon {
        Some(d) => if d < daemons.len() {
            d
        } else {
            active_daemon(daemons, hosts, view)
        },
        None => active_daemon(daemons, hosts, view),
    }
}

/// An agent of the fleet: its pane, the workspace it is in, and the machine
/// that workspace is on.
#[verifier::ext_equal]
#[derive(Clone, Debug, PartialEq, Eq)]
pub struct AgentRowOf<S> {
    pub workspace: S,
    pub workspace_id: SessionId,
    pub pane: PaneId,
    pub host: Option<S>,
    pub daemon: usize,
}

pub type AgentRow = AgentRowOf<String>;

pub type AgentRowModel = AgentRowOf<Seq<char>>;

impl View for AgentRowOf<String> {
    type V = AgentRowOf<Seq<char>>;

    open spec fn view(&self) -> AgentRowOf<Seq<char>> {
        AgentRowOf {
            workspace: self.workspace@,
            workspace_id: self.workspace_id,
            pane: self.pane,
            host: opt_text(self.host),
            daemon: self.daemon,
        }
    }
}

/// What a list of agents holds.
pub open spec fn fleet_model(v: Seq<AgentRow>) -> Seq<AgentRowModel> {
    Seq::new(v.len(), |i: int| v[i]@)
}

/// The agents of one workspace.
pub open spec fn workspace_agents(w: Workspace, d: int, host: Option<Seq<char>>) -> Seq<AgentRowModel> {
    Seq::new(
        w.agents@.len(),
        |i: int|
            AgentRowOf {
                workspace: w.name@,
                workspace_id: w.id,
                pane: w.agents@[i],
                host,
                daemon: d as usize,
            },
    )
}

/// The agents of a daemon's first tabs.
pub open spec fn daemon_agents(
    daemon: Daemon,
    tabs: Seq<Tab>,
    d: int,
    host: Option<Seq<char>>,
) -> Seq<AgentRowModel>
    decreases tabs.len(),
{
    if tabs.len() == 0 {
        Seq::empty()
    } else {
        daemon_agents(daemon, tabs.drop_last(), d, host) + (match daemon.described(tabs.last().id) {
            Some(w) => workspace_agents(w, d, host),
            None => Seq::empty(),
        })
    }
}

/// The agents of the first `n` daemons. Their machines are named where there
/// is more than one.
pub open spec fn fleet_of(daemons: Seq<Daemon>, hosts: Seq<Option<Seq<char>>>, n: int) -> Seq<
    AgentRowModel,
>
    decreases n,
{
    if n <= 0 {
        Seq::empty()
    } else {
        fleet_of(daemons, hosts, n - 1) + daemon_agents(
            daemons[n - 1],
            daemons[n - 1].tabs@,
            n - 1,
            if daemons.len() > 1 {
                hosts[n - 1]
            } else {
                None
            },
        )
    }
}

/// The fleet: every agent of every workspace of every machine, in the order of
/// the tab bar.
pub open spec fn fleet(daemons: Seq<Daemon>, hosts: Seq<Option<String>>) -> Seq<AgentRowModel> {
    fleet_of(daemons, opt_texts(hosts), daemons.len() as int)
}

/// Lists the fleet.
pub fn all_agent_rows(daemons: &Vec<Daemon>, hosts: &Vec<Option<String>>) -> (out: Vec<AgentRow>)
    requires
        daemons@.len() > 1 ==> daemons@.len() <= hosts@.len(),
    ensures
        fleet_model(out@) == fleet(daemons@, hosts@),
{
    let show_host = daemons.len() > 1;
    let mut out: Vec<AgentRow> = Vec::new();
    let mut d: usize = 0;
    assert(fleet_model(out@) =~= fleet_of(daemons@, opt_texts(hosts@), 0));
    while d < daemons.len()
        invariant
            d <= daemons@.len(),
            show_host == (daemons@.len() > 1),
            daemons@.len() > 1 ==> daemons@.len() <= hosts@.len(),
            fleet_model(out@) == fleet_of(daemons@, opt_texts(hosts@), d as int),
        decreases daemons@.len() - d,
    {
        let daemon = &daemons[d];
        let host: Option<&String> = if show_host {
            match &hosts[d] {
                Some(h) => Some(h),
                None => None,
            }
        } else {
            None
        };
        let ghost h = if daemons@.len() > 1 {
            opt_texts(hosts@)[d as int]
        } else {
            None
        };
        let ghost before = fleet_model(out@);
        let mut t: usize = 0;
        assert(daemon.tabs@.take(0) =~= Seq::<Tab>::empty());
        assert(before + daemon_agents(*daemon, daemon.tabs@.take(0), d as int, h) =~= before);
        while t < daemon.tabs.len()
            invariant
                t <= daemon.tabs@.len(),
                match host {
                    Some(s) => h == Some(s@),
                    None => h is None,
                },
                fleet_model(out@) == before + daemon_agents(
                    *daemon,
                    daemon.tabs@.take(t as int),
                    d as int,
                    h,
                ),
            decreases daemon.tabs@.len() - t,
        {
            let ghost sofar = fleet_model(out@);
            let ghost id = daemon.tabs@[t as int].id;
            assert(daemon.tabs@.take(t as int + 1).drop_last() =~= daemon.tabs@.take(t as int));
            assert(daemon.tabs@.take(t as int + 1).last() == daemon.tabs@[t as int]);
            if let Some(ws) = daemon.workspace(daemon.tabs[t].id) {
                let mut a: usize = 0;
                assert(sofar + workspace_agents(*ws, d as int, h).take(0) =~= sofar);
                while a < ws.agents.len()
                    invariant
                        a <= ws.agents@.len(),
                        match host {
                            Some(s) => h == Some(s@),
                            None => h is None,
                        },
                        fleet_model(out@) == sofar + workspace_agents(*ws, d as int, h).take(
                            a as int,
                        ),
                    decreases ws.agents@.len() - a,
                {
                    let row = AgentRowOf {
                        workspace: ws.name.clone(),
                        workspace_id: ws.id,
                        pane: ws.agents[a],
                        host: match host {
                            Some(s) => Some(s.clone()),
                            None => None,
                        },
                        daemon: d,
                    };
                    let ghost prior = out@;
                    out.push(row);
                    proof {
                        assert(row@ == workspace_agents(*ws, d as int, h)[a as int]);
                        assert(fleet_model(out@) =~= fleet_model(prior).push(row@));
                        assert(fleet_model(out@) =~= sofar + workspace_agents(
                            *ws,
                            d as int,
                            h,
                        ).take(a as int + 1));
                    }
                    a = a + 1;
                }
                assert(workspace_agents(*ws, d as int, h).take(a as int) =~= workspace_agents(
                    *ws,
                    d as int,
                    h,
                ));
            } else {
                assert(sofar + Seq::<AgentRowModel>::empty() =~= sofar);
            }
            t = t + 1;
            assert(fleet_model(out@) =~= before + daemon_agents(
                *daemon,
                daemon.tabs@.take(t as int),
                d as int,
                h,
            ));
        }
        assert(daemon.tabs@.take(t as int) =~= daemon.tabs@);
        d = d + 1;
    }
    out
}

/// A machine as the booth lists it: its name, how many agents it has, and
/// whether it still answers.
#[verifier::ext_equal]
#[derive(Clone, Debug, PartialEq, Eq)]
pub struct MachineRowOf<S> {
    pub label: S,
    pub agents: usize,
    pub live: bool,
}

pub type MachineRow = MachineRowOf<String>;

pub type MachineRowModel = MachineRowOf<Seq<char>>;

impl View for MachineRowOf<String> {
    type V = MachineRowOf<Seq<char>>;

    open spec fn view(&self) -> MachineRowOf<Seq<char>> {
        MachineRowOf { label: self.label@, agents: self.agents, live: self.live }
    }
}

/// How many of the fleet are on one machine.
pub open spec fn agents_on(fleet: Seq<AgentRow>, d: usize) -> nat
    decreases fleet.len(),
{
    if fleet.len() == 0 {
        0
    } else {
        agents_on(fleet.drop_last(), d) + (if fleet.last().daemon == d {
            1nat
        } else {
            0nat
        })
    }
}

fn count_on(fleet: &Vec<AgentRow>, d: usize) -> (n: usize)
    ensures
        n == agents_on(fleet@, d),
{
    let mut n: usize = 0;
    let mut i: usize = 0;
    assert(fleet@.take(0) =~= Seq::<AgentRow>::empty());
    while i < fleet.len()
        invariant
            i <= fleet@.len(),
            n <= i,
            n == agents_on(fleet@.take(i as int), d),
        decreases fleet@.len() - i,
    {
        assert(fleet@.take(i as int + 1).drop_last() =~= fleet@.take(i as int));
        if fleet[i].daemon == d {
            n = n + 1;
        }
        i = i + 1;
    }
    assert(fleet@.take(i as int) =~= fleet@);
    n
}

/// The name of a machine; this one has none of its own.
pub open spec fn machine_name(hosts: Seq<Option<String>>, d: int, own: Seq<char>) -> Seq<char> {
    if 0 <= d < hosts.len() {
        match hosts[d] {
            Some(h) => h@,
            None => own,
        }
    } else {
        own
    }
}

fn name_machine(hosts: &Vec<Option<String>>, d: usize, own: &str) -> (s: String)
    ensures
        s@ == machine_name(hosts@, d as int, own@),
{
    if d < hosts.len() {
        match &hosts[d] {
            Some(h) => h.clone(),
            None => own.to_owned(),
        }
    } else {
        own.to_owned()
    }
}

/// Lists the machines for the booth.
pub fn machine_rows(daemons: &Vec<Daemon>, hosts: &Vec<Option<String>>, all: &Vec<AgentRow>) -> (out:
    Vec<MachineRow>)
    ensures
        out@.len() == daemons@.len(),
        forall|d: int|
            0 <= d < out@.len() ==> (#[trigger] out@[d])@ == (MachineRowOf {
                label: machine_name(hosts@, d, "local"@),
                agents: agents_on(all@, d as usize) as usize,
                live: daemons@[d].connected,
            }),
{
    let mut out: Vec<MachineRow> = Vec::new();
    let mut d: usize = 0;
    while d < daemons.len()
        invariant
            d <= daemons@.len(),
            out@.len() == d,
            forall|i: int|
                0 <= i < out@.len() ==> (#[trigger] out@[i])@ == (MachineRowOf {
                    label: machine_name(hosts@, i, "local"@),
                    agents: agents_on(all@, i as usize) as usize,
                    live: daemons@[i].connected,
                }),
        decreases daemons@.len() - d,
    {
        let row = MachineRowOf {
            label: name_machine(hosts, d, "local"),
            agents: count_on(all, d),
            live: daemons[d].connected,
        };
        out.push(row);
        d = d + 1;
    }
    out
}

/// How many rows each list has.
pub open spec fn counted(daemons: Seq<Daemon>, hosts: Seq<Option<String>>, tab: usize) -> Counts {
    let all_agents = fleet(daemons, hosts).len() as usize;
    match workspace_of(daemons, tab) {
        Some(w) => Counts {
            agents: w.agents@.len() as usize,
            procs: w.processes@.len() as usize,
            changes: match w.changes {
                Some(c) => listed_changes(c).len() as usize,
                None => 0,
            },
            all_agents,
        },
        None => Counts { agents: 0, procs: 0, changes: 0, all_agents },
    }
}

/// Counts the rows of each list.
pub fn rail_counts(daemons: &Vec<Daemon>, hosts: &Vec<Option<String>>, view: &Bench) -> (r: Counts)
    requires
        daemons@.len() > 1 ==> daemons@.len() <= hosts@.len(),
    ensures
        r == counted(daemons@, hosts@, view@.tab),
{
    let rows = all_agent_rows(daemons, hosts);
    let all_agents: usize = rows.len();
    match active_workspace(daemons, hosts, view) {
        Some(ws) => {
            let changes: usize = match &ws.changes {
                Some(c) => {
                    let listed = change_rows(c);
                    assert(rows_model(listed@).len() == listed@.len());
                    listed.len()
                },
                None => 0,
            };
            Counts { agents: ws.agents.len(), procs: ws.processes.len(), changes, all_agents }
        },
        None => Counts { agents: 0, procs: 0, changes: 0, all_agents },
    }
}

/// Where a pane is: its machine, its workspace, and its number there.
#[derive(Clone, Copy, Debug, PartialEq, Eq, Structural)]
pub struct Route {
    pub daemon: usize,
    pub workspace: SessionId,
    pub pane: PaneId,
}

/// Where the pane of a row of the fleet is: on that row's own machine and in
/// its own workspace, whichever tab is open.
pub open spec fn route_in(fleet: Seq<AgentRowModel>, sel: usize) -> Option<Route> {
    if sel < fleet.len() {
        let row = fleet[sel as int];
        Some(Route { daemon: row.daemon, workspace: row.workspace_id, pane: row.pane })
    } else {
        None
    }
}

/// Where the pane of a row of the fleet is.
pub fn fleet_route(fleet: &Vec<AgentRow>, sel: usize) -> (r: Option<Route>)
    ensures
        r == route_in(fleet_model(fleet@), sel),
{
    if sel < fleet.len() {
        assert(fleet_model(fleet@)[sel as int] == fleet@[sel as int]@);
        Some(
            Route {
                daemon: fleet[sel].daemon,
                workspace: fleet[sel].workspace_id,
                pane: fleet[sel].pane,
            },
        )
    } else {
        None
    }
}

/// The pane that the cursor with the keyboard is on.
pub open spec fn pane_of(daemons: Seq<Daemon>, hosts: Seq<Option<String>>, v: BenchModel) -> Option<
    PaneId,
> {
    match workspace_of(daemons, v.tab) {
        Some(w) => match v.focus {
            Focus::Agents => if v.agent_sel < w.agents@.len() {
                Some(w.agents@[v.agent_sel as int])
            } else {
                None
            },
            Focus::Processes => if v.proc_sel < w.processes@.len() {
                Some(w.processes@[v.proc_sel as int])
            } else {
                None
            },
            Focus::AllAgents => match route_in(fleet(daemons, hosts), v.all_agents_sel) {
                Some(r) => Some(r.pane),
                None => None,
            },
            _ => None,
        },
        None => None,
    }
}

/// The pane that the cursor with the keyboard is on.
pub fn selected_pane(daemons: &Vec<Daemon>, hosts: &Vec<Option<String>>, view: &Bench) -> (r: Option<
    PaneId,
>)
    requires
        daemons@.len() > 1 ==> daemons@.len() <= hosts@.len(),
    ensures
        r == pane_of(daemons@, hosts@, view@),
{
    match active_workspace(daemons, hosts, view) {
        Some(ws) => match view.focus {
            Focus::Agents => if view.agent_sel < ws.agents.len() {
                Some(ws.agents[view.agent_sel])
            } else {
                None
            },
            Focus::Processes => if view.proc_sel < ws.processes.len() {
                Some(ws.processes[view.proc_sel])
            } else {
                None
            },
            Focus::AllAgents => {
                let rows = all_agent_rows(daemons, hosts);
                match fleet_route(&rows, view.all_agents_sel) {
                    Some(r) => Some(r.pane),
                    None => None,
                }
            },
            _ => None,
        },
        None => None,
    }
}

/// Where the pane that the cursor with the keyboard is on is found.
pub open spec fn route_of(daemons: Seq<Daemon>, hosts: Seq<Option<String>>, v: BenchModel) -> Option<
    Route,
> {
    if v.focus is AllAgents {
        route_in(fleet(daemons, hosts), v.all_agents_sel)
    } else {
        match (workspace_of(daemons, v.tab), pane_of(daemons, hosts, v)) {
            (Some(w), Some(pane)) => Some(
                Route { daemon: daemon_of(daemons, v.tab), workspace: w.id, pane },
            ),
            _ => None,
        }
    }
}

/// Where the pane that the cursor with the keyboard is on is found.
pub fn selected_route(daemons: &Vec<Daemon>, hosts: &Vec<Option<String>>, view: &Bench) -> (r: Option<
    Route,
>)
    requires
        daemons@.len() > 1 ==> daemons@.len() <= hosts@.len(),
    ensures
        r == route_of(daemons@, hosts@, view@),
{
    if view.focus == Focus::AllAgents {
        let rows = all_agent_rows(daemons, hosts);
        return fleet_route(&rows, view.all_agents_sel);
    }
    let d: usize = active_daemon(daemons, hosts, view);
    match active_workspace(daemons, hosts, view) {
        Some(ws) => match selected_pane(daemons, hosts, view) {
            Some(pane) => Some(Route { daemon: d, workspace: ws.id, pane }),
            None => None,
        },
        None => None,
    }
}

/// The pane of a workspace that is on the stage: the one this client chose, or
/// else the machine's own.
pub open spec fn staged_in(ws: Option<Workspace>, staged: Option<PaneId>) -> Option<PaneId> {
    match (staged, ws) {
        (Some(p), Some(_)) => Some(p),
        (None, Some(w)) => w.stage,
        _ => None,
    }
}

/// The pane that the stage should show, and its machine: in the booth the one
/// of the fleet's cursor, on the container page the logs it follows, and
/// otherwise what is staged in the workspace that is open.
pub open spec fn stage_of(
    daemons: Seq<Daemon>,
    hosts: Seq<Option<String>>,
    v: BenchModel,
    docker: Docker,
) -> Option<(usize, PaneId)> {
    if v.page is Booth {
        match route_in(fleet(daemons, hosts), v.all_agents_sel) {
            Some(r) => Some((r.daemon, r.pane)),
            None => None,
        }
    } else {
        match key_of(daemons, v.tab) {
            Some((d, id)) => {
                let pane = if v.page is Docker {
                    docker.logs
                } else {
                    staged_in(daemons[d as int].described(id), v.staged)
                };
                match pane {
                    Some(p) => Some((d, p)),
                    None => None,
                }
            },
            None => None,
        }
    }
}

/// The pane that the stage should show, and its machine.
pub fn current_stage(
    daemons: &Vec<Daemon>,
    hosts: &Vec<Option<String>>,
    view: &Bench,
    docker: &Docker,
) -> (r: Option<(usize, PaneId)>)
    requires
        daemons@.len() > 1 ==> daemons@.len() <= hosts@.len(),
    ensures
        r == stage_of(daemons@, hosts@, view@, *docker),
{
    if view.page == Page::Booth {
        let rows = all_agent_rows(daemons, hosts);
        return match fleet_route(&rows, view.all_agents_sel) {
            Some(r) => Some((r.daemon, r.pane)),
            None => None,
        };
    }
    match active_ws_key(daemons, hosts, view) {
        Some((d, id)) => {
            let pane: Option<PaneId> = if view.page == Page::Docker {
                docker.logs
            } else {
                match daemons[d].workspace(id) {
                    Some(ws) => match view.staged {
                        Some(p) => Some(p),
                        None => ws.stage,
                    },
                    None => None,
                }
            };
            match pane {
                Some(p) => Some((d, p)),
                None => None,
            }
        },
        None => None,
    }
}

/// The tab of a workspace on a machine.
pub open spec fn tab_with(
    daemons: Seq<Daemon>,
    tabs: Seq<(usize, usize)>,
    d: usize,
    id: SessionId,
) -> Option<int>
    decreases tabs.len(),
{
    if tabs.len() == 0 {
        None
    } else {
        match tab_with(daemons, tabs.drop_last(), d, id) {
            Some(i) => Some(i),
            None => if is_tab_of(daemons, tabs.last(), d, id) {
                Some(tabs.len() - 1)
            } else {
                None
            },
        }
    }
}

/// Whether a tab is that of a workspace on a machine.
pub open spec fn is_tab_of(daemons: Seq<Daemon>, tab: (usize, usize), d: usize, id: SessionId) -> bool {
    tab.0 == d && daemons[tab.0 as int].tabs@[tab.1 as int].id == id
}

proof fn tab_with_settled(
    daemons: Seq<Daemon>,
    tabs: Seq<(usize, usize)>,
    d: usize,
    id: SessionId,
    i: int,
)
    requires
        0 <= i < tabs.len(),
        tab_with(daemons, tabs.take(i), d, id) is None,
        is_tab_of(daemons, tabs[i], d, id),
    ensures
        tab_with(daemons, tabs, d, id) == Some(i),
    decreases tabs.len(),
{
    if i == tabs.len() - 1 {
        assert(tabs.drop_last() =~= tabs.take(i));
    } else {
        assert(tabs.drop_last().take(i) =~= tabs.take(i));
        tab_with_settled(daemons, tabs.drop_last(), d, id, i);
    }
}

/// A tab that is in the bar is found there, or another of the same workspace.
pub proof fn a_tab_that_is_there_is_found(
    daemons: Seq<Daemon>,
    tabs: Seq<(usize, usize)>,
    d: usize,
    id: SessionId,
    i: int,
)
    requires
        0 <= i < tabs.len(),
        is_tab_of(daemons, tabs[i], d, id),
    ensures
        tab_with(daemons, tabs, d, id) matches Some(j) && 0 <= j < tabs.len() && is_tab_of(
            daemons,
            tabs[j],
            d,
            id,
        ),
    decreases tabs.len(),
{
    if i < tabs.len() - 1 {
        a_tab_that_is_there_is_found(daemons, tabs.drop_last(), d, id, i);
    } else if tab_with(daemons, tabs.drop_last(), d, id) is Some {
        what_is_found_is_there(daemons, tabs.drop_last(), d, id);
    }
}

proof fn what_is_found_is_there(daemons: Seq<Daemon>, tabs: Seq<(usize, usize)>, d: usize, id: SessionId)
    ensures
        tab_with(daemons, tabs, d, id) matches Some(j) ==> 0 <= j < tabs.len() && is_tab_of(
            daemons,
            tabs[j],
            d,
            id,
        ),
    decreases tabs.len(),
{
    if tabs.len() > 0 {
        what_is_found_is_there(daemons, tabs.drop_last(), d, id);
    }
}

proof fn every_tab_is_in_the_bar(daemons: Seq<Daemon>, d: int, t: int) -> (i: int)
    requires
        daemons.len() <= usize::MAX,
        0 <= d < daemons.len(),
        0 <= t < daemons[d].tabs@.len() <= usize::MAX,
    ensures
        0 <= i < all_tabs(daemons).len(),
        all_tabs(daemons)[i] == (d as usize, t as usize),
    decreases daemons.len(),
{
    let before = all_tabs(daemons.drop_last());
    if d == daemons.len() - 1 {
        let own = own_tabs(d, daemons.last().tabs@.len());
        assert(all_tabs(daemons)[before.len() + t] == own[t]);
        before.len() + t
    } else {
        let i = every_tab_is_in_the_bar(daemons.drop_last(), d, t);
        assert(all_tabs(daemons)[i] == before[i]);
        i
    }
}

proof fn a_row_of_a_machine_has_a_tab(
    daemon: Daemon,
    tabs: Seq<Tab>,
    d: int,
    host: Option<Seq<char>>,
    i: int,
) -> (t: int)
    requires
        0 <= i < daemon_agents(daemon, tabs, d, host).len(),
    ensures
        0 <= t < tabs.len(),
        tabs[t].id == daemon_agents(daemon, tabs, d, host)[i].workspace_id,
        daemon_agents(daemon, tabs, d, host)[i].daemon == d as usize,
    decreases tabs.len(),
{
    let before = daemon_agents(daemon, tabs.drop_last(), d, host);
    if i < before.len() {
        assert(daemon_agents(daemon, tabs, d, host)[i] == before[i]);
        a_row_of_a_machine_has_a_tab(daemon, tabs.drop_last(), d, host, i)
    } else {
        workspace_at_has_the_id(daemon.workspaces@, tabs.last().id);
        let w = daemon.described(tabs.last().id)->0;
        assert(daemon_agents(daemon, tabs, d, host)[i] == workspace_agents(w, d, host)[i
            - before.len()]);
        tabs.len() - 1
    }
}

proof fn a_row_has_a_tab(daemons: Seq<Daemon>, hosts: Seq<Option<Seq<char>>>, n: int, i: int) -> (at: (
    int,
    int,
))
    requires
        0 <= n <= daemons.len() <= usize::MAX,
        0 <= i < fleet_of(daemons, hosts, n).len(),
    ensures
        0 <= at.0 < n,
        0 <= at.1 < daemons[at.0].tabs@.len(),
        fleet_of(daemons, hosts, n)[i].daemon == at.0,
        daemons[at.0].tabs@[at.1].id == fleet_of(daemons, hosts, n)[i].workspace_id,
    decreases n,
{
    let before = fleet_of(daemons, hosts, n - 1);
    if i < before.len() {
        assert(fleet_of(daemons, hosts, n)[i] == before[i]);
        a_row_has_a_tab(daemons, hosts, n - 1, i)
    } else {
        let host = if daemons.len() > 1 {
            hosts[n - 1]
        } else {
            None
        };
        let own = daemon_agents(daemons[n - 1], daemons[n - 1].tabs@, n - 1, host);
        assert(fleet_of(daemons, hosts, n)[i] == own[i - before.len()]);
        let t = a_row_of_a_machine_has_a_tab(
            daemons[n - 1],
            daemons[n - 1].tabs@,
            n - 1,
            host,
            i - before.len(),
        );
        (n - 1, t)
    }
}

/// The tab of a workspace on a machine.
pub fn find_tab(daemons: &Vec<Daemon>, hosts: &Vec<Option<String>>, d: usize, id: SessionId) -> (r:
    Option<usize>)
    ensures
        match r {
            Some(tab) => tab_with(daemons@, all_tabs(daemons@), d, id) == Some(tab as int) && tab
                < all_tabs(daemons@).len() && is_tab_of(
                daemons@,
                all_tabs(daemons@)[tab as int],
                d,
                id,
            ),
            None => tab_with(daemons@, all_tabs(daemons@), d, id) is None,
        },
{
    let tabs = tab_index(daemons, hosts);
    let mut i: usize = 0;
    assert(tabs@.take(0) =~= Seq::<(usize, usize)>::empty());
    while i < tabs.len()
        invariant
            i <= tabs@.len(),
            tabs@ == all_tabs(daemons@),
            forall|j: int|
                0 <= j < tabs@.len() ==> (#[trigger] tabs@[j]).0 < daemons@.len() && tabs@[j].1
                    < daemons@[tabs@[j].0 as int].tabs@.len(),
            tab_with(daemons@, tabs@.take(i as int), d, id) is None,
        decreases tabs@.len() - i,
    {
        assert(tabs@.take(i as int + 1).drop_last() =~= tabs@.take(i as int));
        assert(tabs@.take(i as int + 1).last() == tabs@[i as int]);
        let (at, t): (usize, usize) = tabs[i];
        if at == d && daemons[at].tabs[t].id == id {
            proof {
                tab_with_settled(daemons@, tabs@, d, id, i as int);
            }
            return Some(i);
        }
        i = i + 1;
    }
    assert(tabs@.take(i as int) =~= tabs@);
    None
}

/// The tab that an agent of the fleet is on.
pub open spec fn tab_of_agent(daemons: Seq<Daemon>, row: AgentRowModel) -> Option<int> {
    tab_with(daemons, all_tabs(daemons), row.daemon, row.workspace_id)
}

/// Every agent of the fleet is on a tab of the bar, and that tab is the one of
/// its own workspace on its own machine, whatever else goes by that name.
pub proof fn an_agent_of_the_fleet_is_on_its_own_tab(
    daemons: Seq<Daemon>,
    hosts: Seq<Option<String>>,
    sel: int,
)
    requires
        daemons.len() <= usize::MAX,
        forall|d: int| 0 <= d < daemons.len() ==> (#[trigger] daemons[d]).tabs@.len() <= usize::MAX,
        0 <= sel < fleet(daemons, hosts).len(),
    ensures
        ({
            let row = fleet(daemons, hosts)[sel];
            tab_of_agent(daemons, row) matches Some(tab) && 0 <= tab < all_tabs(daemons).len()
                && is_tab_of(daemons, all_tabs(daemons)[tab], row.daemon, row.workspace_id)
        }),
{
    let (d, t) = a_row_has_a_tab(daemons, opt_texts(hosts), daemons.len() as int, sel);
    let i = every_tab_is_in_the_bar(daemons, d, t);
    let row = fleet(daemons, hosts)[sel];
    a_tab_that_is_there_is_found(daemons, all_tabs(daemons), row.daemon, row.workspace_id, i);
}

/// A view that has travelled to an agent of the fleet.
pub open spec fn travelled(v: BenchModel, sel: usize, tab: int, pane: PaneId) -> BenchModel {
    BenchOf {
        all_agents_sel: sel,
        tab: tab as usize,
        staged: Some(pane),
        page: Page::Agents,
        focus: Focus::Stage,
        ..v
    }
}

/// Travels to an agent of the fleet: to the tab of its workspace on its
/// machine, with its pane on the stage. Where the agent has gone, nothing
/// happens.
pub fn open_fleet_agent(
    daemons: &Vec<Daemon>,
    hosts: &Vec<Option<String>>,
    view: &mut Bench,
    sel: usize,
) -> (r: bool)
    requires
        daemons@.len() > 1 ==> daemons@.len() <= hosts@.len(),
    ensures
        r == (sel < fleet(daemons@, hosts@).len()),
        r ==> ({
            let row = fleet(daemons@, hosts@)[sel as int];
            let tabs = all_tabs(daemons@);
            &&& tab_of_agent(daemons@, row) matches Some(tab) && final(view)@ == travelled(
                old(view)@,
                sel,
                tab,
                row.pane,
            )
            &&& final(view)@.tab < tabs.len()
            &&& tabs[final(view)@.tab as int].0 == row.daemon
            &&& daemons@[row.daemon as int].tabs@[tabs[final(view)@.tab as int].1 as int].id
                == row.workspace_id
        }),
        !r ==> final(view)@ == old(view)@,
{
    let rows = all_agent_rows(daemons, hosts);
    assert(fleet_model(rows@).len() == rows@.len());
    if sel >= rows.len() {
        return false;
    }
    assert(fleet_model(rows@)[sel as int] == rows@[sel as int]@);
    let row = &rows[sel];
    proof {
        assert(daemons.len() == daemons@.len());
        assert forall|d: int| 0 <= d < daemons@.len() implies (#[trigger] daemons@[d]).tabs@.len()
            <= usize::MAX by {
            assert(daemons@[d].tabs.len() == daemons@[d].tabs@.len());
        }
        an_agent_of_the_fleet_is_on_its_own_tab(daemons@, hosts@, sel as int);
    }
    match find_tab(daemons, hosts, row.daemon, row.workspace_id) {
        Some(tab) => {
            view.all_agents_sel = sel;
            view.tab = tab;
            view.staged = Some(row.pane);
            view.page = Page::Agents;
            view.focus = Focus::Stage;
            true
        },
        None => false,
    }
}

/// A tab as it is drawn: its name, the machine it is on where there are several,
/// and whether that machine is there.
#[verifier::ext_equal]
#[derive(Clone, Debug, PartialEq, Eq)]
pub struct TabRowOf<S> {
    pub name: S,
    pub host: Option<S>,
    pub live: bool,
}

pub type TabRow = TabRowOf<String>;

impl View for TabRowOf<String> {
    type V = TabRowOf<Seq<char>>;

    open spec fn view(&self) -> TabRowOf<Seq<char>> {
        TabRowOf { name: self.name@, host: crate::text::opt_text(self.host), live: self.live }
    }
}

/// A tab as it is drawn.
pub open spec fn tab_row(daemons: Seq<Daemon>, hosts: Seq<Option<String>>, at: (usize, usize)) -> TabRowOf<
    Seq<char>,
> {
    TabRowOf {
        name: daemons[at.0 as int].tabs@[at.1 as int].name@,
        host: if daemons.len() > 1 {
            crate::text::opt_text(hosts[at.0 as int])
        } else {
            None
        },
        live: daemons[at.0 as int].connected,
    }
}

/// The tabs as they are drawn. The machine is named only where there are
/// several.
pub fn tabs_of(daemons: &Vec<Daemon>, hosts: &Vec<Option<String>>) -> (out: Vec<TabRow>)
    requires
        daemons@.len() > 1 ==> daemons@.len() <= hosts@.len(),
    ensures
        out@.len() == all_tabs(daemons@).len(),
        forall|i: int|
            0 <= i < out@.len() ==> (#[trigger] out@[i])@ == tab_row(
                daemons@,
                hosts@,
                all_tabs(daemons@)[i],
            ),
{
    let tabs = tab_index(daemons, hosts);
    let show_host = daemons.len() > 1;
    let mut out: Vec<TabRow> = Vec::new();
    let mut i: usize = 0;
    while i < tabs.len()
        invariant
            i <= tabs@.len(),
            out@.len() == i,
            tabs@ == all_tabs(daemons@),
            show_host == (daemons@.len() > 1),
            show_host ==> daemons@.len() <= hosts@.len(),
            forall|j: int|
                0 <= j < tabs@.len() ==> (#[trigger] tabs@[j]).0 < daemons@.len() && tabs@[j].1
                    < daemons@[tabs@[j].0 as int].tabs@.len(),
            forall|j: int|
                0 <= j < i ==> (#[trigger] out@[j])@ == tab_row(daemons@, hosts@, tabs@[j]),
        decreases tabs@.len() - i,
    {
        let (d, t): (usize, usize) = tabs[i];
        let host = if show_host {
            crate::text::clone_opt(&hosts[d])
        } else {
            None
        };
        out.push(
            TabRowOf { name: daemons[d].tabs[t].name.clone(), host, live: daemons[d].connected },
        );
        i = i + 1;
    }
    out
}

/// The tab bar lists machine after machine: another machine's tabs come behind
/// all that are there, in their own order, and move none of them. Without a
/// machine there is no tab.
pub proof fn the_bar_lists_machine_after_machine(daemons: Seq<Daemon>, m: Daemon, i: int, t: int)
    requires
        daemons.len() < usize::MAX,
        m.tabs@.len() <= usize::MAX,
    ensures
        all_tabs(Seq::<Daemon>::empty()).len() == 0,
        all_tabs(daemons.push(m)).len() == all_tabs(daemons).len() + m.tabs@.len(),
        0 <= i < all_tabs(daemons).len() ==> all_tabs(daemons.push(m))[i] == all_tabs(daemons)[i],
        0 <= t < m.tabs@.len() ==> all_tabs(daemons.push(m))[all_tabs(daemons).len() + t] == (
            daemons.len() as usize,
            t as usize,
        ),
{
    assert(daemons.push(m).drop_last() =~= daemons);
}

/// Whether a tab is the `t`th of machine `d`, and the workspace it names is the
/// `w`th that the machine has described, and the first of its id.
pub open spec fn stands_on(daemons: Seq<Daemon>, tab: usize, d: usize, t: usize, w: int) -> bool {
    &&& tab < all_tabs(daemons).len()
    &&& all_tabs(daemons)[tab as int] == (d, t)
    &&& 0 <= w < daemons[d as int].workspaces@.len()
    &&& daemons[d as int].workspaces@[w].id == daemons[d as int].tabs@[t as int].id
    &&& forall|j: int|
        0 <= j < w ==> (#[trigger] daemons[d as int].workspaces@[j]).id != daemons[d as int].tabs@[
        t as int].id
}

proof fn found_first(workspaces: Seq<Workspace>, id: SessionId, w: int)
    requires
        0 <= w < workspaces.len(),
        workspaces[w].id == id,
        forall|j: int| 0 <= j < w ==> (#[trigger] workspaces[j]).id != id,
    ensures
        workspace_at(workspaces, id) == Some(w),
{
    workspace_at_has_the_id(workspaces.take(w), id);
    if let Some(i) = workspace_at(workspaces.take(w), id) {
        assert(workspaces[i].id != id);
    }
    workspace_at_settled(workspaces, id, w);
}

/// What a view acts on is what its tab names: the machine of the tab, the id that
/// the tab has there, and the workspace that the machine describes under it. With
/// no such tab it is the first machine and no workspace.
pub proof fn a_view_acts_on_its_tab(daemons: Seq<Daemon>, tab: usize, d: usize, t: usize, w: int)
    ensures
        stands_on(daemons, tab, d, t, w) ==> daemon_of(daemons, tab) == d && key_of(daemons, tab)
            == Some((d, daemons[d as int].tabs@[t as int].id)) && workspace_of(daemons, tab)
            == Some(daemons[d as int].workspaces@[w]),
        tab >= all_tabs(daemons).len() ==> daemon_of(daemons, tab) == 0 && key_of(daemons, tab)
            is None && workspace_of(daemons, tab) is None,
        tab < all_tabs(daemons).len() && all_tabs(daemons)[tab as int] == (d, t) ==> daemon_of(
            daemons,
            tab,
        ) == d && ((forall|j: int|
            0 <= j < daemons[d as int].workspaces@.len() ==> (#[trigger] daemons[d as int].workspaces@[
            j]).id != daemons[d as int].tabs@[t as int].id) ==> workspace_of(daemons, tab) is None),
{
    let workspaces = daemons[d as int].workspaces@;
    let id = daemons[d as int].tabs@[t as int].id;
    if stands_on(daemons, tab, d, t, w) {
        found_first(workspaces, id, w);
    }
    workspace_at_has_the_id(workspaces, id);
}

/// What the stage shows. On a page that has the workspace's own stage it is the
/// pane this client chose; where it chose none, what the workspace itself has on
/// its stage, and nothing where that has none. The container page shows the log
/// it follows, and the booth the agent that its cursor is on, on that agent's own
/// machine. Without a tab, or a workspace on it, there is nothing to show.
pub proof fn the_stage_shows_what_was_chosen_or_the_workspaces_own(
    daemons: Seq<Daemon>,
    hosts: Seq<Option<String>>,
    v: BenchModel,
    docker: Docker,
    d: usize,
    t: usize,
    w: int,
    p: PaneId,
)
    ensures
        v.page !is Booth && v.page !is Docker && stands_on(daemons, v.tab, d, t, w) ==> {
            &&& v.staged is None ==> (stage_of(daemons, hosts, v, docker) == Some((d, p))
                <==> daemons[d as int].workspaces@[w].stage == Some(p))
            &&& v.staged is None && daemons[d as int].workspaces@[w].stage is None ==> stage_of(
                daemons,
                hosts,
                v,
                docker,
            ) is None
            &&& v.staged == Some(p) ==> stage_of(daemons, hosts, v, docker) == Some((d, p))
        },
        v.page is Docker && v.tab < all_tabs(daemons).len() && all_tabs(daemons)[v.tab as int] == (
            d,
            t,
        ) ==> stage_of(daemons, hosts, v, docker) == (match docker.logs {
            Some(log) => Some((d, log)),
            None => None,
        }),
        v.page is Booth && v.all_agents_sel < fleet(daemons, hosts).len() ==> stage_of(
            daemons,
            hosts,
            v,
            docker,
        ) == Some(
            (
                fleet(daemons, hosts)[v.all_agents_sel as int].daemon,
                fleet(daemons, hosts)[v.all_agents_sel as int].pane,
            ),
        ),
        v.page is Booth && v.all_agents_sel >= fleet(daemons, hosts).len() ==> stage_of(
            daemons,
            hosts,
            v,
            docker,
        ) is None,
        v.page !is Booth && v.tab >= all_tabs(daemons).len() ==> stage_of(
            daemons,
            hosts,
            v,
            docker,
        ) is None,
        v.page !is Booth && v.page !is Docker && workspace_of(daemons, v.tab) is None ==> stage_of(
            daemons,
            hosts,
            v,
            docker,
        ) is None,
{
    if stands_on(daemons, v.tab, d, t, w) {
        found_first(
            daemons[d as int].workspaces@,
            daemons[d as int].tabs@[t as int].id,
            w,
        );
    }
}

/// Each rail is counted by the list it draws: the agents, the processes and the
/// changes of the open workspace, and all agents of the fleet.
pub proof fn a_rail_is_counted_by_its_list(
    daemons: Seq<Daemon>,
    hosts: Seq<Option<String>>,
    tab: usize,
    d: usize,
    t: usize,
    w: int,
)
    requires
        stands_on(daemons, tab, d, t, w),
        fleet(daemons, hosts).len() <= usize::MAX,
        daemons[d as int].workspaces@[w].agents@.len() <= usize::MAX,
        daemons[d as int].workspaces@[w].processes@.len() <= usize::MAX,
    ensures
        counted(daemons, hosts, tab).agents == daemons[d as int].workspaces@[w].agents@.len(),
        counted(daemons, hosts, tab).procs == daemons[d as int].workspaces@[w].processes@.len(),
        counted(daemons, hosts, tab).all_agents == fleet(daemons, hosts).len(),
        daemons[d as int].workspaces@[w].changes is None ==> counted(daemons, hosts, tab).changes
            == 0,
        daemons[d as int].workspaces@[w].changes matches Some(c) ==> counted(
            daemons,
            hosts,
            tab,
        ).changes == listed_changes(c).len() as usize,
{
    found_first(daemons[d as int].workspaces@, daemons[d as int].tabs@[t as int].id, w);
}

/// Without a workspace the rails are empty, and the fleet is still counted.
pub proof fn without_a_workspace_the_rails_are_empty(
    daemons: Seq<Daemon>,
    hosts: Seq<Option<String>>,
    tab: usize,
)
    requires
        workspace_of(daemons, tab) is None,
        fleet(daemons, hosts).len() <= usize::MAX,
    ensures
        counted(daemons, hosts, tab).agents == 0,
        counted(daemons, hosts, tab).procs == 0,
        counted(daemons, hosts, tab).changes == 0,
        counted(daemons, hosts, tab).all_agents == fleet(daemons, hosts).len(),
{
}

/// The pane under a cursor is the one in its row: of the agents or the processes
/// of the open workspace, found there on its machine, or of the fleet, found on
/// the row's own machine and in its own workspace. Past the end of the list, and
/// with the keyboard elsewhere, there is none.
pub proof fn a_cursor_names_the_pane_of_its_row(
    daemons: Seq<Daemon>,
    hosts: Seq<Option<String>>,
    v: BenchModel,
    d: usize,
    t: usize,
    w: int,
)
    requires
        stands_on(daemons, v.tab, d, t, w),
    ensures
        ({
            let ws = daemons[d as int].workspaces@[w];
            let all = fleet(daemons, hosts);
            let (pane, route) = (pane_of(daemons, hosts, v), route_of(daemons, hosts, v));
            &&& v.focus is Agents && v.agent_sel < ws.agents@.len() ==> {
                &&& pane == Some(ws.agents@[v.agent_sel as int])
                &&& route is Some
                &&& route->0.daemon == d
                &&& route->0.workspace == ws.id
                &&& route->0.pane == ws.agents@[v.agent_sel as int]
            }
            &&& v.focus is Agents && v.agent_sel >= ws.agents@.len() ==> pane is None && route
                is None
            &&& v.focus is Processes && v.proc_sel < ws.processes@.len() ==> {
                &&& pane == Some(ws.processes@[v.proc_sel as int])
                &&& route is Some
                &&& route->0.daemon == d
                &&& route->0.workspace == ws.id
                &&& route->0.pane == ws.processes@[v.proc_sel as int]
            }
            &&& v.focus is Processes && v.proc_sel >= ws.processes@.len() ==> pane is None && route
                is None
            &&& v.focus is AllAgents && v.all_agents_sel < all.len() ==> {
                &&& pane == Some(all[v.all_agents_sel as int].pane)
                &&& route is Some
                &&& route->0.daemon == all[v.all_agents_sel as int].daemon
                &&& route->0.workspace == all[v.all_agents_sel as int].workspace_id
                &&& route->0.pane == all[v.all_agents_sel as int].pane
            }
            &&& v.focus is AllAgents && v.all_agents_sel >= all.len() ==> pane is None && route
                is None
            &&& v.focus !is Agents && v.focus !is Processes && v.focus !is AllAgents ==> pane
                is None && route is None
        }),
{
    found_first(daemons[d as int].workspaces@, daemons[d as int].tabs@[t as int].id, w);
}

/// The agents of one more tab come behind those of the tabs before it, in their
/// own order: each with the name and the id of its workspace, its pane, the
/// machine it is on and that machine's name.
pub proof fn a_tab_adds_its_agents(
    daemon: Daemon,
    tabs: Seq<Tab>,
    tab: Tab,
    d: int,
    host: Option<Seq<char>>,
    w: int,
    a: int,
)
    requires
        0 <= w < daemon.workspaces@.len(),
        daemon.workspaces@[w].id == tab.id,
        forall|j: int| 0 <= j < w ==> (#[trigger] daemon.workspaces@[j]).id != tab.id,
        0 <= a < daemon.workspaces@[w].agents@.len(),
    ensures
        ({
            let before = daemon_agents(daemon, tabs, d, host);
            let after = daemon_agents(daemon, tabs.push(tab), d, host);
            let row = after[before.len() + a];
            &&& after.len() == before.len() + daemon.workspaces@[w].agents@.len()
            &&& after.take(before.len() as int) == before
            &&& row.pane == daemon.workspaces@[w].agents@[a]
            &&& row.workspace == daemon.workspaces@[w].name@
            &&& row.workspace_id == tab.id
            &&& row.daemon == d as usize
            &&& row.host == host
        }),
{
    found_first(daemon.workspaces@, tab.id, w);
    assert(tabs.push(tab).drop_last() =~= tabs);
    let before = daemon_agents(daemon, tabs, d, host);
    assert(daemon_agents(daemon, tabs.push(tab), d, host).take(before.len() as int) =~= before);
}

/// A tab whose workspace is not described yet adds no agent, and without a tab
/// there is none.
pub proof fn a_tab_that_is_not_described_adds_no_agent(
    daemon: Daemon,
    tabs: Seq<Tab>,
    tab: Tab,
    d: int,
    host: Option<Seq<char>>,
)
    requires
        forall|j: int|
            0 <= j < daemon.workspaces@.len() ==> (#[trigger] daemon.workspaces@[j]).id != tab.id,
    ensures
        daemon_agents(daemon, tabs.push(tab), d, host) == daemon_agents(daemon, tabs, d, host),
        daemon_agents(daemon, Seq::<Tab>::empty(), d, host).len() == 0,
{
    workspace_at_has_the_id(daemon.workspaces@, tab.id);
    assert(tabs.push(tab).drop_last() =~= tabs);
    assert(daemon_agents(daemon, tabs, d, host) + Seq::<AgentRowModel>::empty() =~= daemon_agents(
        daemon,
        tabs,
        d,
        host,
    ));
}

/// The fleet lists machine after machine: those of the `n`th come behind all those
/// before it, and are named by it where there is more than one machine.
pub proof fn the_fleet_lists_machine_after_machine(
    daemons: Seq<Daemon>,
    hosts: Seq<Option<String>>,
    n: int,
    i: int,
)
    requires
        0 <= n < daemons.len() <= hosts.len(),
    ensures
        ({
            let before = fleet_of(daemons, opt_texts(hosts), n);
            let after = fleet_of(daemons, opt_texts(hosts), n + 1);
            let own = daemon_agents(
                daemons[n],
                daemons[n].tabs@,
                n,
                if daemons.len() == 1 || hosts[n] is None {
                    None
                } else {
                    Some(hosts[n]->0@)
                },
            );
            &&& after.len() == before.len() + own.len()
            &&& 0 <= i < before.len() ==> after[i] == before[i]
            &&& 0 <= i < own.len() ==> after[before.len() + i] == own[i]
        }),
        fleet_of(daemons, opt_texts(hosts), 0).len() == 0,
        fleet(daemons, hosts) == fleet_of(daemons, opt_texts(hosts), daemons.len() as int),
{
}

/// Travelling to an agent opens its tab and puts its pane on the stage, with the
/// keyboard on it, on the page of the agents; the fleet's cursor is left on it.
pub proof fn travelling_shows_the_agent(v: BenchModel, sel: usize, tab: usize, pane: PaneId)
    ensures
        ({
            let after = travelled(v, sel, tab as int, pane);
            &&& after.tab == tab
            &&& after.staged == Some(pane)
            &&& after.page is Agents
            &&& after.focus is Stage
            &&& after.all_agents_sel == sel
            &&& after.overlay == v.overlay
            &&& after.agent_sel == v.agent_sel && after.proc_sel == v.proc_sel
        }),
{
}

/// A tab is drawn by the name it has on its machine; the machine is named only
/// where there is more than one; and it is live while that machine answers.
pub proof fn a_tab_is_drawn_by_its_own_name(
    daemons: Seq<Daemon>,
    hosts: Seq<Option<String>>,
    d: usize,
    t: usize,
)
    requires
        d < daemons.len() <= hosts.len(),
        t < daemons[d as int].tabs@.len(),
    ensures
        tab_row(daemons, hosts, (d, t)).name == daemons[d as int].tabs@[t as int].name@,
        tab_row(daemons, hosts, (d, t)).live == daemons[d as int].connected,
        daemons.len() == 1 || hosts[d as int] is None ==> tab_row(daemons, hosts, (d, t)).host
            is None,
        daemons.len() > 1 && hosts[d as int] is Some ==> tab_row(daemons, hosts, (d, t)).host
            == Some(hosts[d as int]->0@),
{
}

/// Folders are browsed on the machine that was picked for it, as long as it is
/// there, and otherwise on the machine of the tab.
pub proof fn folders_are_browsed_where_it_was_picked(
    daemons: Seq<Daemon>,
    v: BenchModel,
    d: usize,
    t: usize,
    picked: usize,
)
    requires
        v.tab < all_tabs(daemons).len(),
        all_tabs(daemons)[v.tab as int] == (d, t),
    ensures
        v.browse_daemon == Some(picked) && picked < daemons.len() ==> browsed_daemon(daemons, v)
            == picked,
        v.browse_daemon == Some(picked) && picked >= daemons.len() ==> browsed_daemon(daemons, v)
            == d,
        v.browse_daemon is None ==> browsed_daemon(daemons, v) == d,
{
}

/// A machine goes by its host, and by `own` where it is this one; it has as many
/// agents as rows of the fleet are on it.
pub proof fn a_machine_is_named_and_counted(
    hosts: Seq<Option<String>>,
    d: int,
    own: Seq<char>,
    all: Seq<AgentRow>,
    row: AgentRow,
)
    ensures
        0 <= d < hosts.len() && hosts[d] is Some ==> machine_name(hosts, d, own) == hosts[d]->0@,
        0 <= d < hosts.len() && hosts[d] is None ==> machine_name(hosts, d, own) == own,
        d >= hosts.len() ==> machine_name(hosts, d, own) == own,
        agents_on(Seq::<AgentRow>::empty(), row.daemon) == 0,
        agents_on(all.push(row), row.daemon) == agents_on(all, row.daemon) + 1,
        forall|other: usize|
            other != row.daemon ==> #[trigger] agents_on(all.push(row), other) == agents_on(
                all,
                other,
            ),
{
    assert(all.push(row).drop_last() =~= all);
}

} // verus!
