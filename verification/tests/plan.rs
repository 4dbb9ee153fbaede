use nmstate::error::{nm_error_to_nmstate, ErrorKind, NmError, NmstateError};
use nmstate::nm::active_connection::{
    nm_ac_from_connection, nm_ac_has_connection, nm_ac_property_error,
};
use nmstate::nm::connection::{
    NmActiveConnection, NmConnection, NmSettingConnection, NmSettingVrf,
};
use nmstate::nm::iface_type::NmIfaceType;
use nmstate::nm::plan::{
    activated_nm_conns, apply_steps, delete_exist_profiles, dns_policy, hostname_to_set, nm_apply,
    ApplyStep, DnsPolicy, NmAction, PerparedNmConnections,
};
use nmstate::route::MergedRoutes;
use nmstate::state::{
    DnsClientState, DnsState, HostNameState, MergedDnsState, MergedHostNameState,
    MergedInterfaces, MergedNetworkState,
};

fn s(text: &str) -> Option<String> {
    Some(text.to_string())
}

fn conn(id: &str, uuid: Option<&str>, iface_name: &str, iface_type: NmIfaceType) -> NmConnection {
    let mut c = NmConnection::new();
    c.connection = Some(NmSettingConnection {
        id: s(id),
        uuid: uuid.map(|u| u.to_string()),
        iface_type: Some(iface_type),
        iface_name: s(iface_name),
        controller: None,
        controller_type: None,
        lldp: None,
        mptcp_flags: None,
    });
    c
}

fn vrf(uuid: &str, table: u32) -> NmConnection {
    let mut c = conn("vrf0", Some(uuid), "vrf0", NmIfaceType::Vrf);
    c.vrf = Some(NmSettingVrf { table: Some(table) });
    c
}

fn ac(uuid: &str) -> NmActiveConnection {
    NmActiveConnection {
        uuid: uuid.to_string(),
        iface_type: NmIfaceType::Ethernet,
        iface_name: "x".to_string(),
        state_flags: 0,
    }
}

fn dns(servers: Vec<&str>, searches: Vec<&str>, options: Vec<&str>) -> MergedDnsState {
    let own = |l: Vec<&str>| l.into_iter().map(|x| x.to_string()).collect::<Vec<String>>();
    MergedDnsState {
        desired: None,
        current: DnsState { running: None, config: None },
        servers: own(servers),
        searches: own(searches),
        options: own(options),
    }
}

fn state(memory_only: bool) -> MergedNetworkState {
    MergedNetworkState {
        interfaces: MergedInterfaces { kernel_ifaces: vec![], user_ifaces: vec![] },
        hostname: MergedHostNameState { desired: None, current: None },
        dns: dns(vec![], vec![], vec![]),
        routes: MergedRoutes { changed_routes: vec![] },
        memory_only,
    }
}

#[test]
fn active_profiles() {
    let exist = vec![
        conn("a", Some("u1"), "a", NmIfaceType::Ethernet),
        conn("b", Some("u2"), "b", NmIfaceType::Ethernet),
        conn("c", None, "c", NmIfaceType::Ethernet),
        conn("d", Some("u4"), "d", NmIfaceType::Ethernet),
    ];
    let active = activated_nm_conns(&exist, &vec![ac("u4"), ac("u1"), ac("u9"), ac("u1")]);
    let ids: Vec<&str> = active.iter().map(|c| c.id().unwrap().as_str()).collect();
    assert_eq!(ids, vec!["a", "d"]);
    assert!(activated_nm_conns(&exist, &vec![]).is_empty());
}

#[test]
fn profiles_in_the_way_are_deleted() {
    let exist = vec![
        conn("old", Some("u1"), "eth1", NmIfaceType::Ethernet),
        conn("kept", Some("u2"), "eth1", NmIfaceType::Ethernet),
        conn("vlan", Some("u3"), "eth1", NmIfaceType::Vlan),
        conn("eth2", Some("u4"), "eth2", NmIfaceType::Ethernet),
        conn("no-uuid", None, "eth1", NmIfaceType::Ethernet),
        conn("veth", Some("u6"), "eth1", NmIfaceType::Veth),
    ];
    let to_store = vec![
        conn("kept", Some("u2"), "eth1", NmIfaceType::Ethernet),
        conn("new", Some("u9"), "eth3", NmIfaceType::Ethernet),
    ];
    assert_eq!(delete_exist_profiles(&exist, &to_store), vec!["u1".to_string()]);
    assert!(delete_exist_profiles(&exist, &vec![]).is_empty());
}

#[test]
fn requests_come_in_the_order_that_keeps_devices_free() {
    let exist = vec![vrf("u1", 10), conn("old", Some("u5"), "eth1", NmIfaceType::Ethernet)];
    let prepared = PerparedNmConnections {
        to_store: vec![vrf("u1", 20), conn("new", Some("u6"), "eth1", NmIfaceType::Ethernet)],
        to_activate: vec![
            vrf("u1", 20),
            conn("new", Some("u6"), "eth1", NmIfaceType::Ethernet),
            conn("odd", None, "eth8", NmIfaceType::Ethernet),
        ],
        to_deactivate: vec![conn("down", Some("u7"), "eth7", NmIfaceType::Ethernet)],
    };
    let plan = nm_apply(
        &state(false),
        &exist,
        &vec![ac("u1"), ac("u5")],
        &prepared,
        &vec!["orphan".to_string()],
    );
    assert_eq!(
        plan,
        vec![
            NmAction::Deactivate("u1".to_string()),
            NmAction::Store(0),
            NmAction::Store(1),
            NmAction::Delete("u5".to_string()),
            NmAction::Delete("orphan".to_string()),
            NmAction::Activate("u1".to_string()),
            NmAction::Activate("u6".to_string()),
            NmAction::Deactivate("u7".to_string()),
            NmAction::Dispatch,
        ]
    );
    let plan = nm_apply(
        &state(true),
        &exist,
        &vec![ac("u5")],
        &prepared,
        &vec!["orphan".to_string()],
    );
    assert_eq!(
        plan,
        vec![
            NmAction::Store(0),
            NmAction::Store(1),
            NmAction::Activate("u1".to_string()),
            NmAction::Activate("u6".to_string()),
            NmAction::Deactivate("u7".to_string()),
            NmAction::Dispatch,
        ]
    );
    let nothing =
        PerparedNmConnections { to_store: vec![], to_activate: vec![], to_deactivate: vec![] };
    assert_eq!(nm_apply(&state(false), &vec![], &vec![], &nothing, &vec![]), vec![NmAction::Dispatch]);
}

#[test]
fn host_name_is_set_only_where_it_lasts() {
    let mut st = state(false);
    assert_eq!(hostname_to_set(&st), None);
    st.hostname.desired = Some(HostNameState { running: s("run"), config: None });
    assert_eq!(hostname_to_set(&st), None);
    st.hostname.desired = Some(HostNameState { running: None, config: s("host1") });
    assert_eq!(hostname_to_set(&st), Some(&"host1".to_string()));
    st.memory_only = true;
    assert_eq!(hostname_to_set(&st), None);
}

#[test]
fn resolver_policy() {
    let mut d = dns(vec![], vec![], vec![]);
    assert_eq!(dns_policy(&d, true, false), DnsPolicy::Keep);
    assert!(!DnsPolicy::Keep.purges_global());
    assert!(DnsPolicy::Purge.purges_global());
    assert!(DnsPolicy::Global.purges_global());
    assert_eq!(dns_policy(&d, true, true), DnsPolicy::Keep);
    assert_eq!(dns_policy(&d, false, false), DnsPolicy::Purge);
    assert_eq!(dns_policy(&d, false, true), DnsPolicy::IfaceElseGlobal);
    d.desired = Some(DnsState { running: None, config: None });
    assert_eq!(dns_policy(&d, true, false), DnsPolicy::Purge);

    let d = dns(vec![], vec!["example.org"], vec![]);
    assert_eq!(dns_policy(&d, true, true), DnsPolicy::IfaceSearchOnly);
    let d = dns(vec![], vec![], vec!["rotate"]);
    assert_eq!(dns_policy(&d, true, false), DnsPolicy::IfaceSearchOnly);
    let d = dns(vec!["192.0.2.53"], vec!["example.org"], vec![]);
    assert_eq!(dns_policy(&d, true, true), DnsPolicy::IfaceElseGlobal);
    assert_eq!(dns_policy(&d, true, false), DnsPolicy::Global);

    let mut same = dns(vec!["192.0.2.53"], vec![], vec![]);
    same.current.config = Some(DnsClientState {
        server: Some(vec!["192.0.2.53".to_string()]),
        search: None,
        options: Some(vec![]),
    });
    assert_eq!(dns_policy(&same, true, false), DnsPolicy::Keep);
    assert_eq!(dns_policy(&same, false, false), DnsPolicy::Global);
    same.current.config.as_mut().unwrap().server = Some(vec!["192.0.2.54".to_string()]);
    assert_eq!(dns_policy(&same, true, false), DnsPolicy::Global);
    same.current.config.as_mut().unwrap().server =
        Some(vec!["192.0.2.53".to_string(), "192.0.2.54".to_string()]);
    assert_eq!(dns_policy(&same, true, false), DnsPolicy::Global);
}

#[test]
fn activation_of_a_profile() {
    assert!(nm_ac_has_connection("/org/freedesktop/NetworkManager/Settings/7"));
    assert!(!nm_ac_has_connection("/"));
    assert!(!nm_ac_has_connection(""));
    let c = conn("a", Some("u1"), "eth1", NmIfaceType::Vlan);
    assert_eq!(
        nm_ac_from_connection("u1".to_string(), &c, 0x80),
        NmActiveConnection {
            uuid: "u1".to_string(),
            iface_type: NmIfaceType::Vlan,
            iface_name: "eth1".to_string(),
            state_flags: 0x80,
        }
    );
    assert_eq!(
        nm_ac_from_connection("u2".to_string(), &NmConnection::new(), 0),
        NmActiveConnection {
            uuid: "u2".to_string(),
            iface_type: NmIfaceType::Ethernet,
            iface_name: String::new(),
            state_flags: 0,
        }
    );
    assert_eq!(
        nm_ac_from_connection(String::new(), &NmConnection::new(), 0),
        NmActiveConnection::default()
    );
}

#[test]
fn errors_keep_kind_and_message() {
    let e = nm_ac_property_error("Uuid", "/ac/1", "gone");
    assert_eq!(e.kind, ErrorKind::Bug);
    assert_eq!(e.msg, "Failed to retrieve Uuid of active connection /ac/1: gone");
    let wrapped = nm_error_to_nmstate(NmError::new(ErrorKind::BackendError, "down".to_string()));
    assert_eq!(wrapped, NmstateError::new(ErrorKind::BackendError, "down".to_string()));
    let invalid = nm_error_to_nmstate(NmError::new(ErrorKind::InvalidArgument, "bad".to_string()));
    assert_eq!(invalid.kind(), ErrorKind::InvalidArgument);
    assert_eq!(invalid.msg(), "bad");
}

#[test]
fn steps_of_a_reconciliation() {
    let tail = vec![
        ApplyStep::QueryBackend,
        ApplyStep::StoreRoutes,
        ApplyStep::StoreRouteRules,
        ApplyStep::ResolveDns,
        ApplyStep::PrepareProfiles,
        ApplyStep::RunRequests,
    ];
    let mut st = state(false);
    let mut want = vec![
        ApplyStep::CheckVersion,
        ApplyStep::SetCheckpoint,
        ApplyStep::DeleteAbsentInterfaces,
    ];
    want.extend(tail.clone());
    assert_eq!(apply_steps(&st), want);

    st.hostname.desired = Some(HostNameState { running: None, config: s("host1") });
    let mut want = vec![
        ApplyStep::CheckVersion,
        ApplyStep::SetCheckpoint,
        ApplyStep::DeleteAbsentInterfaces,
        ApplyStep::SetHostname,
    ];
    want.extend(tail.clone());
    assert_eq!(apply_steps(&st), want);

    st.memory_only = true;
    let mut want = vec![ApplyStep::CheckVersion, ApplyStep::SetCheckpoint];
    want.extend(tail);
    assert_eq!(apply_steps(&st), want);
}
