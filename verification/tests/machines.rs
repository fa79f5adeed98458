use butai_workbench::machines::{
    announced_target, announcement_dials, connect_machine, connected_machines, disconnect_daemon, disconnect_host,
    forget_machine, host_overlay, host_picker, index_after_removal, machine_picker, remote_label, should_dial,
    Announcement, Connected, DialMeta, Dialling, DisconnectError, Forward, RemoteDef, SshHost,
};
use butai_workbench::named::Named;
use butai_workbench::redial::{redial_due, Downed, REDIAL_MAX, REDIAL_MIN};
use butai_workbench::roster::{Daemon, Endpoint, Tab};
use butai_workbench::session::start_machines;
use butai_workbench::types::{Bench, Overlay, SessionId};

const TYPE_DESTINATION: &str = ":type";
const DISCONNECT: &str = ":disconnect ";
const CONNECTING: &str = ":connecting ";
const KEEP: &str = ":keep ";

fn announcement(hint: &str, ssh_target: &str) -> Announcement {
    Announcement {
        hint: hint.into(),
        socket: "/run/user/1000/butai/butai.sock".into(),
        ssh_target: ssh_target.into(),
        ssh_args: vec!["-p".into(), "2222".into()],
    }
}

fn on_its_way(names: &[&str]) -> Dialling {
    let mut d = Dialling::new();
    for n in names {
        d.insert(n.to_string());
    }
    d
}

fn named(name: &str) -> Option<String> {
    Some(name.to_string())
}

#[test]
fn the_way_back_prefers_the_pane_over_the_far_sides_guess() {
    assert_eq!(announced_target(&announcement("10.8.0.4", "build-box")).unwrap(), "build-box");
    assert_eq!(announced_target(&announcement("10.8.0.4", "")).unwrap(), "10.8.0.4");
    assert!(
        announced_target(&announcement("", "")).is_err(),
        "an announcement with no way back is an error, not a silent no-op"
    );
    assert_eq!(
        announced_target(&announcement("", "")).unwrap_err().message(),
        "a machine announced itself but said nothing about how to reach it"
    );
}

#[test]
fn a_machine_already_here_or_on_its_way_is_not_dialled_again() {
    let a = announcement("10.8.0.4", "build-box");
    let target = announced_target(&a).unwrap();
    let none = Dialling::new();

    assert!(should_dial(target, &vec![None], &none), "an unknown machine should be dialled");
    assert!(
        !should_dial(target, &vec![None, named("build-box")], &none),
        "it is already in the bar"
    );
    assert!(
        !should_dial(target, &vec![None], &on_its_way(&["build-box"])),
        "it is already being dialled"
    );
    assert!(should_dial("build-box", &vec![None, None], &none));
}

#[test]
fn auto_attach_off_stops_an_announcement_but_not_the_picker() {
    let a = announcement("10.8.0.4", "build-box");
    let target = announced_target(&a).unwrap();
    let none = Dialling::new();

    assert!(announcement_dials(target, &vec![None], &none, true), "on: it should dial");
    assert!(!announcement_dials(target, &vec![None], &none, false), "off: it must not dial");
    assert!(!announcement_dials(target, &vec![None, named("build-box")], &none, true));
    assert!(should_dial(target, &vec![None], &none), "the picker must still dial");
}

#[test]
fn a_hiccup_on_a_live_forward_does_not_cost_an_ssh() {
    let mut downed: Named<Downed> = Named::new();
    let now = 1_000;
    assert!(!redial_due(&mut downed, "gpu-box", true, now), "one loss is a hiccup");
    assert!(redial_due(&mut downed, "gpu-box", true, now), "two in a row is gone");
}

#[test]
fn a_dead_ssh_is_redialled_at_once() {
    let mut downed: Named<Downed> = Named::new();
    assert!(redial_due(&mut downed, "gpu-box", false, 1_000));
}

#[test]
fn a_machine_that_stays_down_backs_off() {
    let mut downed: Named<Downed> = Named::new();
    let t0 = 1_000_000u64;
    assert!(redial_due(&mut downed, "gpu-box", false, t0), "the first is free");
    assert!(!redial_due(&mut downed, "gpu-box", false, t0), "not twice in the same instant");
    assert!(
        !redial_due(&mut downed, "gpu-box", false, t0 + REDIAL_MIN - 1),
        "not before the wait is up"
    );

    let hour = 3_600_000u64;
    let mut at = t0;
    let mut fired = Vec::new();
    while at < t0 + hour {
        at += 10_000;
        if redial_due(&mut downed, "gpu-box", false, at) {
            fired.push(at - t0);
        }
    }
    assert!(fired.len() < 20, "{} dials in an hour of being off", fired.len());
    assert_eq!(
        downed.get("gpu-box").unwrap().backoff,
        REDIAL_MAX,
        "the wait must stop growing"
    );
    let last_two = &fired[fired.len() - 2..];
    assert_eq!(last_two[1] - last_two[0], REDIAL_MAX);
    assert_eq!((REDIAL_MIN, REDIAL_MAX), (5_000, 300_000));
}

#[test]
fn coming_back_clears_the_backoff() {
    let mut downed: Named<Downed> = Named::new();
    let t0 = 1_000_000u64;
    let mut at = t0;
    for _ in 0..4 {
        assert!(redial_due(&mut downed, "gpu-box", false, at));
        at += REDIAL_MAX;
    }
    assert!(downed.get("gpu-box").unwrap().backoff > REDIAL_MIN);

    downed.remove("gpu-box");

    assert!(redial_due(&mut downed, "gpu-box", false, t0), "a fresh drop tries at once");
    assert_eq!(downed.get("gpu-box").unwrap().backoff, REDIAL_MIN);
}

#[test]
fn machines_back_off_independently() {
    let mut downed: Named<Downed> = Named::new();
    let now = 1_000;
    assert!(redial_due(&mut downed, "gpu-box", false, now));
    assert!(redial_due(&mut downed, "build-box", false, now));
    assert!(!redial_due(&mut downed, "gpu-box", false, now));
}

fn ssh_host(alias: &str, hostname: Option<&str>) -> SshHost {
    SshHost { alias: alias.into(), detail: hostname.map(str::to_string) }
}

fn rows_of(overlay: &Overlay) -> (Vec<String>, Vec<String>) {
    let Overlay::List(list) = overlay else { panic!("the host picker is not a list") };
    (list.items.clone(), list.values.clone().expect("a host row's value is its alias"))
}

fn ours(host: &str) -> Connected {
    Connected { host: host.into(), ours: true }
}

#[test]
fn the_host_picker_shows_a_connected_machine_instead_of_offering_it() {
    let hosts = vec![
        ssh_host("gpu-box", Some("10.0.0.5")),
        ssh_host("build-box", None),
        ssh_host("laptop", None),
    ];
    let connected = vec![ours("build-box")];
    let (items, values) = rows_of(&host_overlay(hosts, &connected, &Dialling::new()));
    assert_eq!(
        values,
        vec![
            format!("{DISCONNECT}build-box"),
            "gpu-box".into(),
            "laptop".into(),
            TYPE_DESTINATION.into()
        ],
        "build-box is here already, so its row disconnects rather than dials"
    );
    assert!(items[0].contains("build-box"), "{:?}", items[0]);
    assert!(items[0].contains("connected"), "{:?}", items[0]);
    assert!(items[0].contains("disconnect"), "{:?}", items[0]);
    assert!(items[1].contains("gpu-box"), "{:?}", items[1]);
    assert!(items[1].contains("10.0.0.5"), "the detail column is missing: {:?}", items[1]);
    assert_eq!(items[2].trim(), "laptop", "an alias that adds nothing gets no detail column");
}

#[test]
fn the_host_picker_offers_no_way_to_disconnect_this_machine() {
    let machines =
        connected_machines(&vec![None], &vec!["/run/local.sock".to_string()], &vec![]);
    assert!(machines.is_empty(), "this machine must not be a row");
    let (_, values) = rows_of(&host_overlay(vec![], &machines, &Dialling::new()));
    assert_eq!(values, vec![TYPE_DESTINATION]);
}

#[test]
fn a_machine_on_someone_elses_forward_is_shown_but_not_offered_up() {
    let machines = connected_machines(
        &vec![None, named("gpu-box")],
        &vec!["/run/local.sock".to_string(), "/run/gpu.sock".to_string()],
        &vec![],
    );
    assert_eq!(machines.len(), 1, "the named one, and not this machine");
    assert!(!machines[0].ours, "we did not dial it");

    let (items, values) = rows_of(&host_overlay(vec![], &machines, &Dialling::new()));
    assert_eq!(values, vec![format!("{KEEP}gpu-box"), TYPE_DESTINATION.into()]);
    assert!(items[0].contains("gpu-box"), "{:?}", items[0]);
    assert!(items[0].contains("connected"), "it is still here: {:?}", items[0]);
    assert!(
        !items[0].contains("enter to disconnect"),
        "it must not promise what it cannot do: {:?}",
        items[0]
    );
}

#[test]
fn only_a_machine_we_dialled_can_be_disconnected() {
    let mut view = Bench::default();
    let (mut daemons, mut forwards): (Vec<Daemon>, Vec<Forward>) = (Vec::new(), Vec::new());
    let mut hosts: Vec<Option<String>> = vec![None];
    let mut sockets = vec!["/run/local.sock".to_string()];
    let err = disconnect_host(
        "gpu-box",
        &mut daemons,
        &mut hosts,
        &mut sockets,
        &mut forwards,
        &mut view,
    )
    .expect_err("nothing by that name is connected");
    assert!(err.message().contains("not connected"), "{err:?}");

    let err =
        disconnect_daemon(0, &mut daemons, &mut hosts, &mut sockets, &mut forwards, &mut view)
            .expect_err("the local daemon is not a link");
    assert!(err.message().contains("not a link"), "{err:?}");

    hosts.push(named("gpu-box"));
    sockets.push("/run/gpu.sock".to_string());
    let err =
        disconnect_daemon(1, &mut daemons, &mut hosts, &mut sockets, &mut forwards, &mut view)
            .expect_err("we did not dial it");
    assert!(err.message().contains("not one we dialled"), "{err:?}");

    assert_eq!(hosts.len(), 2, "a refused disconnect must not shorten the bar");
    assert_eq!(sockets.len(), 2);
}

#[test]
fn each_refusal_to_disconnect_says_which_it_is() {
    let mut view = Bench::default();
    let mut forwards: Vec<Forward> = Vec::new();
    let mut daemons = vec![empty_daemon(), empty_daemon()];
    let mut hosts = vec![None, named("gpu-box")];
    let mut sockets = vec!["/run/local.sock".to_string()];
    assert_eq!(
        disconnect_daemon(1, &mut daemons, &mut hosts, &mut sockets, &mut forwards, &mut view),
        Err(DisconnectError::NoSocket)
    );
    assert_eq!(
        DisconnectError::NotConnected { host: "gpu-box".into() }.message(),
        "gpu-box is not connected"
    );
    assert_eq!(DisconnectError::NotALink.message(), "this machine is not a link to drop");
    assert_eq!(DisconnectError::NoSocket.message(), "no socket for that machine");
    assert_eq!(
        DisconnectError::NotOurs { host: "gpu-box".into() }.message(),
        "gpu-box is not one we dialled"
    );
}

fn empty_daemon() -> Daemon {
    Daemon { tabs: vec![], workspaces: vec![], connected: true }
}

#[test]
fn disconnecting_a_machine_takes_everything_of_it_away() {
    let mut view = Bench { tab: 3, browse_daemon: Some(2), ..Bench::default() };
    let mut daemons = vec![empty_daemon(), empty_daemon(), empty_daemon()];
    let mut hosts = vec![None, named("gpu-box"), named("laptop")];
    let mut sockets =
        vec!["/run/local.sock".to_string(), "/run/gpu.sock".into(), "/run/laptop.sock".into()];
    let mut forwards = vec![
        Forward { socket: "/run/gpu.sock".into(), alive: true },
        Forward { socket: "/run/laptop.sock".into(), alive: true },
    ];
    let host = disconnect_host(
        "gpu-box",
        &mut daemons,
        &mut hosts,
        &mut sockets,
        &mut forwards,
        &mut view,
    )
    .unwrap();
    assert_eq!(host, "gpu-box");
    assert_eq!(hosts, vec![None, named("laptop")]);
    assert_eq!(sockets, vec!["/run/local.sock", "/run/laptop.sock"]);
    assert_eq!(forwards, vec![Forward { socket: "/run/laptop.sock".into(), alive: true }]);
    assert_eq!(daemons.len(), 2);
    assert_eq!((view.tab, view.browse_daemon), (0, Some(1)));
    assert_eq!(view.flash.as_deref(), Some("gpu-box disconnected"));
    forget_machine("gpu-box", Ok(true), &mut view);
    assert_eq!(view.flash.as_deref(), Some("gpu-box disconnected — forgotten"));
    forget_machine("gpu-box", Err("read-only".into()), &mut view);
    assert_eq!(
        view.flash.as_deref(),
        Some("gpu-box disconnected, but its [[remote]] block could not be removed: read-only")
    );
}

#[test]
fn a_held_daemon_index_moves_with_the_removal() {
    assert_eq!(index_after_removal(Some(0), 1), Some(0));
    assert_eq!(index_after_removal(Some(2), 1), Some(1));
    assert_eq!(index_after_removal(Some(3), 1), Some(2));
    assert_eq!(index_after_removal(Some(1), 1), None);
    assert_eq!(index_after_removal(None, 1), None);
}

#[test]
fn the_host_picker_names_a_machine_still_dialling() {
    let dialling = on_its_way(&["gpu-box"]);
    let hosts = vec![ssh_host("gpu-box", None), ssh_host("laptop", None)];
    let (items, values) = rows_of(&host_overlay(hosts, &vec![], &dialling));
    assert_eq!(
        values,
        vec![format!("{CONNECTING}gpu-box"), "laptop".into(), TYPE_DESTINATION.into()],
        "the one being dialled is not also offered"
    );
    assert!(items[0].contains("connecting"), "{:?}", items[0]);
}

#[test]
fn a_machine_can_be_typed_when_the_config_offers_none() {
    let (items, values) = rows_of(&host_overlay(vec![], &vec![], &Dialling::new()));
    assert_eq!(values, vec![TYPE_DESTINATION], "the only way out has to be a way out");
    assert!(items[0].trim().starts_with("type a destination"), "{:?}", items[0]);
    assert!(items[0].contains("~/.ssh/config"), "{:?}", items[0]);

    let all_here =
        host_overlay(vec![ssh_host("gpu-box", None)], &vec![ours("gpu-box")], &Dialling::new());
    let (items, values) = rows_of(&all_here);
    assert_eq!(values, vec![format!("{DISCONNECT}gpu-box"), TYPE_DESTINATION.into()]);
    assert!(
        !items[1].contains("~/.ssh/config"),
        "the file is not empty — it is all connected: {:?}",
        items[1]
    );
}

#[test]
fn the_picker_goes_by_what_is_connected() {
    let hosts = vec![None, named("gpu-box")];
    let sockets = vec!["/run/local.sock".to_string(), "/run/gpu.sock".into()];
    let forwards = vec![Forward { socket: "/run/gpu.sock".into(), alive: true }];
    let picker = host_picker(
        vec![ssh_host("gpu-box", None), ssh_host("laptop", None)],
        &hosts,
        &sockets,
        &forwards,
        &Dialling::new(),
    );
    let (_, values) = rows_of(&picker);
    assert_eq!(
        values,
        vec![format!("{DISCONNECT}gpu-box"), "laptop".into(), TYPE_DESTINATION.into()]
    );
}

#[test]
fn asking_for_a_machine_says_what_becomes_of_it() {
    let mut view = Bench::default();
    let mut dialling = Dialling::new();
    let mut meta: Named<DialMeta> = Named::new();
    let hosts = vec![None, named("gpu-box")];
    assert!(!connect_machine("gpu-box", &hosts, &mut view, &mut dialling, &mut meta));
    assert_eq!(view.flash.as_deref(), Some("gpu-box is already in the tab bar"));
    assert!(connect_machine("laptop", &hosts, &mut view, &mut dialling, &mut meta));
    assert_eq!(view.flash.as_deref(), Some("connecting to laptop…"));
    assert!(meta.get("laptop").unwrap().remember);
    assert!(!connect_machine("laptop", &hosts, &mut view, &mut dialling, &mut meta));
    assert_eq!(view.flash.as_deref(), Some("laptop is already connecting"));
}

#[test]
fn a_machine_is_picked_by_its_place() {
    let tab = |name: &str| Tab { id: SessionId(1), name: name.to_string() };
    let daemons = vec![
        Daemon { tabs: vec![tab("a")], workspaces: vec![], connected: true },
        Daemon { tabs: vec![tab("b"), tab("c")], workspaces: vec![], connected: true },
    ];
    let picker = machine_picker(&daemons, &vec![None, named("gpu-box")]);
    let (items, values) = rows_of(&picker);
    assert_eq!(items, vec!["this machine  —  1 workspace", "gpu-box  —  2 workspaces"]);
    assert_eq!(values, vec!["0", "1"]);
}

#[test]
fn a_remote_reads_as_what_it_is_called_and_how_it_is_reached() {
    let def = |name: Option<&str>, host: Option<&str>, socket: Option<&str>| RemoteDef {
        name: name.map(str::to_string),
        host: host.map(str::to_string),
        socket: socket.map(str::to_string),
    };
    assert_eq!(remote_label(&def(Some("gpu"), Some("10.0.0.5"), None)), "gpu — ssh 10.0.0.5");
    assert_eq!(remote_label(&def(None, None, Some("/run/x"))), "socket /run/x");
    assert_eq!(remote_label(&def(None, None, None)), "no host or socket");
}

#[test]
fn a_workbench_starts_with_the_machines_it_reaches() {
    let end = |host: Option<&str>, socket: &str| Endpoint {
        host: host.map(str::to_string),
        socket: socket.into(),
    };
    let ends = vec![end(None, "/run/a"), end(Some("gpu-box"), "/run/b"), end(Some("pi"), "/run/c")];
    let away = || Some("refused".to_string());

    let s = start_machines(&ends, &vec![None, away(), None]).unwrap();
    assert_eq!(s.hosts, [None, Some("pi".to_string())], "host by host with the machines");
    assert_eq!(s.sockets, ["/run/a", "/run/c"]);
    assert_eq!(s.failures, ["/run/b: refused"]);

    assert_eq!(
        start_machines(&ends, &vec![away(), away(), away()]).unwrap_err(),
        "no daemon answered (/run/a: refused; /run/b: refused; /run/c: refused)"
    );
    assert_eq!(start_machines(&vec![], &vec![]).unwrap_err(), "no daemon to connect to");
}
