use nmstate::base_iface::{BaseInterface, InterfaceIdentifier, InterfaceState, InterfaceType};
use nmstate::error::ErrorKind;
use nmstate::iface::{
    BondConfig, BondInterface, BondPortConfig, Interface, IpsecInterface, LinuxBridgeConfig,
    LinuxBridgeInterface, LinuxBridgeOptions, UnknownInterface,
};
use nmstate::nm::apply::{
    check_nm_version, delete_ifaces, delete_orphan_ports,
    delete_remain_virtual_interface_as_desired, gen_nm_conn_need_to_deactivate_first,
    get_bond_ports_with_queue_id_changed, get_default_pvid_changed_brs, nm_version_unsupported,
};
use nmstate::nm::connection::{
    NmConnection, NmDevice, NmDeviceState, NmIpRoute, NmSettingConnection, NmSettingIp,
    NmSettingVlan, NmSettingVrf, NmSettingVxlan, NmSettingWired,
};
use nmstate::nm::iface_type::{iface_type_to_nm, NmIfaceType};
use nmstate::nm::ipvlan::NmSettingIpVlan;
use nmstate::nm::reapply::{
    is_bond_port_queue_id_changed, is_bridge_port_changed_default_pvid, is_ipvlan_changed,
    is_mptcp_flags_changed, is_route_removed, is_veth_peer_changed, is_vlan_changed,
    is_vrf_table_id_changed, is_vxlan_changed,
};
use nmstate::nm::value::{DbusDictionary, DbusValue};
use nmstate::nm::veth::NmSettingVeth;
use nmstate::route::MergedRoutes;
use nmstate::state::{
    DnsState, MergedDnsState, MergedHostNameState, MergedInterface, MergedInterfaces,
    MergedNetworkState,
};

fn s(text: &str) -> Option<String> {
    Some(text.to_string())
}

fn conn(id: &str, uuid: &str, iface_name: &str, iface_type: NmIfaceType) -> NmConnection {
    let mut c = NmConnection::new();
    c.connection = Some(NmSettingConnection {
        id: s(id),
        uuid: s(uuid),
        iface_type: Some(iface_type),
        iface_name: s(iface_name),
        controller: None,
        controller_type: None,
        lldp: None,
        mptcp_flags: None,
    });
    c
}

fn port_of(mut c: NmConnection, controller: &str, controller_type: NmIfaceType) -> NmConnection {
    let set = c.connection.as_mut().unwrap();
    set.controller = s(controller);
    set.controller_type = Some(controller_type);
    c
}

fn base(name: &str, iface_type: InterfaceType, state: InterfaceState) -> BaseInterface {
    let mut b = BaseInterface::new();
    b.name = name.to_string();
    b.iface_type = iface_type;
    b.state = state;
    b
}

fn iface(name: &str, iface_type: InterfaceType, state: InterfaceState) -> Interface {
    let b = base(name, iface_type.clone(), state);
    match iface_type {
        InterfaceType::Ipsec => Interface::Ipsec(Box::new(IpsecInterface { base: b, libreswan: None })),
        InterfaceType::Veth => {
            Interface::Ethernet(Box::new(nmstate::iface::EthernetInterface { base: b }))
        }
        InterfaceType::Unknown | InterfaceType::Tun | InterfaceType::Xfrm | InterfaceType::Other(_) => {
            Interface::Unknown(Box::new(UnknownInterface { base: b }))
        }
        _ => Interface::from_base(b).unwrap(),
    }
}

fn changed(merged: Interface, current: Option<Interface>) -> MergedInterface {
    let for_apply = Some(iface(
        merged.name(),
        merged.iface_type().clone(),
        merged.base_iface().state,
    ));
    MergedInterface { desired: None, current, merged, for_apply }
}

fn untouched(merged: Interface) -> MergedInterface {
    MergedInterface { desired: None, current: None, merged, for_apply: None }
}

fn state(kernel: Vec<MergedInterface>, user: Vec<MergedInterface>) -> MergedNetworkState {
    MergedNetworkState {
        interfaces: MergedInterfaces { kernel_ifaces: kernel, user_ifaces: user },
        hostname: MergedHostNameState { desired: None, current: None },
        dns: MergedDnsState {
            desired: None,
            current: DnsState { running: None, config: None },
            servers: vec![],
            searches: vec![],
            options: vec![],
        },
        routes: MergedRoutes { changed_routes: vec![] },
        memory_only: false,
    }
}

fn sorted(mut v: Vec<String>) -> Vec<String> {
    v.sort();
    v
}

const PORT_UUID: &str = "123e4567-e89b-12d3-a456-426614174000";

#[test]
fn profiles_of_an_absent_interface_are_deleted() {
    let conns = vec![
        conn("eth1", "u1", "eth1", NmIfaceType::Ethernet),
        conn("eth1-second", "u2", "eth1", NmIfaceType::Ethernet),
        conn("eth1-veth", "u3", "eth1", NmIfaceType::Veth),
        conn("eth1-vlan", "u4", "eth1", NmIfaceType::Vlan),
        conn("eth2", "u5", "eth2", NmIfaceType::Ethernet),
    ];
    let st = state(
        vec![
            changed(iface("eth1", InterfaceType::Ethernet, InterfaceState::Absent), None),
            changed(iface("eth2", InterfaceType::Ethernet, InterfaceState::Down), None),
            untouched(iface("eth2", InterfaceType::Ethernet, InterfaceState::Absent)),
        ],
        vec![],
    );
    assert_eq!(
        sorted(delete_ifaces(&conns, &st).unwrap()),
        vec!["u1".to_string(), "u2".to_string(), "u3".to_string()]
    );
    assert_eq!(delete_ifaces(&conns, &state(vec![], vec![])), Ok(vec![]));
}

#[test]
fn absent_interface_of_unknown_kind_lets_go_every_profile_for_its_name() {
    let conns = vec![
        conn("a", "u1", "x", NmIfaceType::Ethernet),
        conn("b", "u2", "x", NmIfaceType::Bond),
        conn("c", "u3", "y", NmIfaceType::Bond),
        conn("x", "u4", "z", NmIfaceType::Bond),
    ];
    let st = state(
        vec![changed(iface("x", InterfaceType::Unknown, InterfaceState::Absent), None)],
        vec![],
    );
    assert_eq!(sorted(delete_ifaces(&conns, &st).unwrap()), vec!["u1".to_string(), "u2".to_string()]);
}

#[test]
fn absent_veth_finds_no_profile_by_kind() {
    let conns = vec![
        conn("a", "u1", "veth0", NmIfaceType::Veth),
        conn("b", "u2", "veth0", NmIfaceType::Ethernet),
    ];
    let st = state(
        vec![changed(
            Interface::Ethernet(Box::new(nmstate::iface::EthernetInterface {
                base: base("veth0", InterfaceType::Veth, InterfaceState::Absent),
            })),
            None,
        )],
        vec![],
    );
    assert_eq!(delete_ifaces(&conns, &st), Ok(vec![]));
}

#[test]
fn ipsec_profiles_are_found_by_name() {
    let mut vpn1 = conn("tunnel", "u1", "ignored", NmIfaceType::Vpn);
    vpn1.connection.as_mut().unwrap().iface_name = None;
    let conns = vec![
        vpn1,
        conn("tunnel", "u2", "eth0", NmIfaceType::Vpn),
        conn("tunnel", "u3", "tunnel", NmIfaceType::Ethernet),
        conn("other", "u4", "tunnel", NmIfaceType::Vpn),
    ];
    let st = state(
        vec![],
        vec![changed(iface("tunnel", InterfaceType::Ipsec, InterfaceState::Absent), None)],
    );
    assert_eq!(sorted(delete_ifaces(&conns, &st).unwrap()), vec!["u1".to_string(), "u2".to_string()]);
}

#[test]
fn interface_found_by_mac_address_lets_go_profiles_by_name_and_by_mac() {
    let mut by_mac = conn("wired", "u1", "enp1s0", NmIfaceType::Ethernet);
    by_mac.wired = Some(NmSettingWired { mac_address: s("aa:bb:cc:dd:ee:ff"), mtu: None });
    let mut other_mac = conn("wired2", "u2", "enp2s0", NmIfaceType::Ethernet);
    other_mac.wired = Some(NmSettingWired { mac_address: s("aa:bb:cc:dd:ee:00"), mtu: None });
    let by_id = conn("uplink", "u3", "enp3s0", NmIfaceType::Ethernet);
    let conns = vec![by_mac, other_mac, by_id];

    let mut cur = base("eth1", InterfaceType::Ethernet, InterfaceState::Up);
    cur.identifier = Some(InterfaceIdentifier::MacAddress);
    cur.mac_address = s("AA:BB:CC:DD:EE:FF");
    cur.profile_name = s("uplink");
    let current = Interface::from_base(cur.clone()).unwrap();

    let st = state(
        vec![changed(iface("eth1", InterfaceType::Ethernet, InterfaceState::Absent), Some(current))],
        vec![],
    );
    assert_eq!(delete_ifaces(&conns, &st), Ok(vec!["u1".to_string()]));

    let current = Interface::from_base(cur.clone()).unwrap();
    let st = state(
        vec![changed(iface("uplink", InterfaceType::Ethernet, InterfaceState::Absent), Some(current))],
        vec![],
    );
    assert_eq!(delete_ifaces(&conns, &st), Ok(vec!["u3".to_string()]));

    cur.identifier = Some(InterfaceIdentifier::Name);
    let current = Interface::from_base(cur).unwrap();
    let st = state(
        vec![changed(iface("eth1", InterfaceType::Ethernet, InterfaceState::Absent), Some(current))],
        vec![],
    );
    assert_eq!(delete_ifaces(&conns, &st), Ok(vec![]));
}

#[test]
fn port_profile_of_open_vswitch_goes_with_its_interface_exactly_once() {
    let conns = vec![
        port_of(conn("ovs0", "u1", "ovs0", NmIfaceType::OvsIface), PORT_UUID, NmIfaceType::OvsPort),
        port_of(conn("port0", PORT_UUID, "port0", NmIfaceType::OvsPort), "br0", NmIfaceType::OvsBridge),
        port_of(conn("ovs1", "u3", "ovs1", NmIfaceType::OvsIface), "port1", NmIfaceType::OvsPort),
        port_of(conn("port1", "u4", "port1", NmIfaceType::OvsPort), "br0", NmIfaceType::OvsBridge),
        port_of(conn("port1-b", "u5", "port1", NmIfaceType::OvsPort), "br0", NmIfaceType::OvsBridge),
        conn("port1-eth", "u6", "port1", NmIfaceType::Ethernet),
        port_of(conn("eth5", "u7", "eth5", NmIfaceType::Ethernet), "br1", NmIfaceType::Bridge),
    ];
    let port_iface = Interface::Unknown(Box::new(UnknownInterface {
        base: base("port0", InterfaceType::Other("ovs-port".to_string()), InterfaceState::Absent),
    }));
    let st = state(
        vec![changed(iface("ovs0", InterfaceType::OvsInterface, InterfaceState::Absent), None)],
        vec![changed(port_iface, None)],
    );
    let uuids = delete_ifaces(&conns, &st).unwrap();
    assert_eq!(uuids.iter().filter(|u| u.as_str() == "u1").count(), 1);
    assert_eq!(uuids.iter().filter(|u| u.as_str() == PORT_UUID).count(), 1);
    assert_eq!(uuids.len(), 2);

    let st = state(
        vec![
            changed(iface("ovs1", InterfaceType::OvsInterface, InterfaceState::Absent), None),
            changed(iface("eth5", InterfaceType::Ethernet, InterfaceState::Absent), None),
        ],
        vec![],
    );
    assert_eq!(
        sorted(delete_ifaces(&conns, &st).unwrap()),
        vec!["u3".to_string(), "u4".to_string(), "u5".to_string(), "u7".to_string()]
    );
}

#[test]
fn absent_interface_of_a_kind_without_profiles_is_refused() {
    let conns = vec![conn("eth1", "u1", "eth1", NmIfaceType::Ethernet)];
    let st = state(
        vec![
            changed(iface("eth1", InterfaceType::Ethernet, InterfaceState::Absent), None),
            changed(iface("tun0", InterfaceType::Tun, InterfaceState::Absent), None),
        ],
        vec![],
    );
    let err = delete_ifaces(&conns, &st).unwrap_err();
    assert_eq!(err.kind(), ErrorKind::NotImplementedError);
    assert_eq!(err.msg(), "Does not support iface type: tun yet");
    let st = state(
        vec![changed(iface("eth1", InterfaceType::Ethernet, InterfaceState::Absent), None)],
        vec![
            changed(iface("x0", InterfaceType::Xfrm, InterfaceState::Absent), None),
            changed(iface("tun0", InterfaceType::Tun, InterfaceState::Absent), None),
        ],
    );
    assert_eq!(delete_ifaces(&conns, &st).unwrap_err().msg(), "Does not support iface type: xfrm yet");
    let st = state(
        vec![changed(iface("tun0", InterfaceType::Tun, InterfaceState::Down), None)],
        vec![untouched(iface("x0", InterfaceType::Xfrm, InterfaceState::Absent))],
    );
    assert_eq!(delete_ifaces(&conns, &st), Ok(vec![]));
    assert_eq!(iface_type_to_nm(&InterfaceType::Unknown).unwrap_err().kind(), ErrorKind::NotImplementedError);
    assert_eq!(iface_type_to_nm(&InterfaceType::MacVtap), Ok(NmIfaceType::Macvlan));
    assert_eq!(
        iface_type_to_nm(&InterfaceType::Other("team".to_string())),
        Ok(NmIfaceType::Other("team".to_string()))
    );
}

#[test]
fn ports_of_deleted_controllers_are_orphans() {
    let conns = vec![
        port_of(conn("port0", "pa", "port0", NmIfaceType::OvsPort), "br-uuid", NmIfaceType::OvsBridge),
        port_of(conn("port1", "pb", "port1", NmIfaceType::OvsPort), "other", NmIfaceType::OvsBridge),
        port_of(conn("eth1", "e1", "eth1", NmIfaceType::Ethernet), "br-uuid", NmIfaceType::OvsBridge),
        conn("port2", "pc", "port2", NmIfaceType::OvsPort),
        port_of(conn("port3", "pd", "port3", NmIfaceType::OvsPort), "br-uuid", NmIfaceType::OvsBridge),
    ];
    assert_eq!(
        delete_orphan_ports(&conns, &vec!["x".to_string(), "br-uuid".to_string()]),
        vec!["pa".to_string(), "pd".to_string()]
    );
    assert!(delete_orphan_ports(&conns, &vec![]).is_empty());
    let mut twice = conns;
    twice.push(port_of(
        conn("port0-again", "pa", "port0", NmIfaceType::OvsPort),
        "br-uuid",
        NmIfaceType::OvsBridge,
    ));
    assert_eq!(
        delete_orphan_ports(&twice, &vec!["br-uuid".to_string(), "pd".to_string()]),
        vec!["pa".to_string()]
    );
}

fn dev(name: &str, iface_type: NmIfaceType) -> NmDevice {
    NmDevice {
        name: name.to_string(),
        iface_type,
        state: NmDeviceState::Activated,
        obj_path: format!("/dev/{name}"),
        real: true,
        mac_address: String::new(),
    }
}

#[test]
fn devices_of_virtual_interfaces_that_go_are_deleted() {
    let mut second = dev("vlan7", NmIfaceType::Vlan);
    second.obj_path = "/dev/vlan7-second".to_string();
    let devs = vec![
        dev("vlan7", NmIfaceType::Vlan),
        second,
        dev("vlan7", NmIfaceType::Bridge),
        dev("dummy0", NmIfaceType::Dummy),
        dev("eth1", NmIfaceType::Ethernet),
        dev("ovs0", NmIfaceType::OvsIface),
        dev("br0", NmIfaceType::Bridge),
    ];
    let st = state(
        vec![
            changed(iface("dummy0", InterfaceType::Dummy, InterfaceState::Down), None),
            changed(iface("vlan7", InterfaceType::Vlan, InterfaceState::Absent), None),
            changed(iface("eth1", InterfaceType::Ethernet, InterfaceState::Absent), None),
            changed(iface("ovs0", InterfaceType::OvsInterface, InterfaceState::Absent), None),
            changed(iface("br0", InterfaceType::LinuxBridge, InterfaceState::Up), None),
            untouched(iface("br0", InterfaceType::LinuxBridge, InterfaceState::Absent)),
            changed(iface("bond9", InterfaceType::Bond, InterfaceState::Absent), None),
        ],
        vec![changed(iface("br0", InterfaceType::LinuxBridge, InterfaceState::Absent), None)],
    );
    assert_eq!(
        delete_remain_virtual_interface_as_desired(&devs, &st),
        Ok(vec!["/dev/dummy0".to_string(), "/dev/vlan7-second".to_string()])
    );
    let st = state(
        vec![changed(
            Interface::Dummy(Box::new(nmstate::iface::DummyInterface {
                base: base("x", InterfaceType::Tun, InterfaceState::Absent),
            })),
            None,
        )],
        vec![],
    );
    let err = delete_remain_virtual_interface_as_desired(&devs, &st).unwrap_err();
    assert_eq!(err.kind(), ErrorKind::NotImplementedError);
    assert_eq!(err.msg(), "Does not support iface type: tun yet");
}

#[test]
fn versions_of_the_backend() {
    assert!(check_nm_version("1.38.0"));
    assert!(check_nm_version("0.50"));
    assert!(check_nm_version("1.39.90"));
    assert!(!check_nm_version("1.40"));
    assert!(!check_nm_version("1.46.2"));
    assert!(!check_nm_version("1"));
    assert!(!check_nm_version(""));
    assert!(check_nm_version("x.50"));
    assert!(check_nm_version("1.x"));
    assert!(check_nm_version("1.+39"));
    assert!(!check_nm_version("+1.+40"));
    assert!(check_nm_version("2.0"));
    assert!(check_nm_version("1.99999999999"));
    assert!(nm_version_unsupported(&vec![1, 39]));
    assert!(!nm_version_unsupported(&vec![1, 40, 0]));
    assert!(!nm_version_unsupported(&vec![0]));
    assert!(nm_version_unsupported(&vec![-1, 100]));
}

fn bridge(name: &str, pvid: Option<u16>) -> Interface {
    Interface::LinuxBridge(Box::new(LinuxBridgeInterface {
        base: base(name, InterfaceType::LinuxBridge, InterfaceState::Up),
        bridge: Some(LinuxBridgeConfig {
            options: Some(LinuxBridgeOptions { vlan_default_pvid: pvid }),
            port: None,
        }),
    }))
}

fn bond(name: &str, ports: Vec<(&str, Option<u16>)>) -> Interface {
    Interface::Bond(Box::new(BondInterface {
        base: base(name, InterfaceType::Bond, InterfaceState::Up),
        bond: Some(BondConfig {
            options: None,
            port: None,
            ports_config: Some(
                ports
                    .into_iter()
                    .map(|(n, q)| BondPortConfig { name: n.to_string(), priority: None, queue_id: q })
                    .collect(),
            ),
        }),
    }))
}

fn merged(for_apply: Option<Interface>, current: Option<Interface>, merged: Interface) -> MergedInterface {
    MergedInterface { desired: None, current, merged, for_apply }
}

fn planned() -> MergedInterfaces {
    MergedInterfaces {
        kernel_ifaces: vec![
            merged(Some(bridge("br0", Some(10))), Some(bridge("br0", Some(1))), bridge("br0", Some(10))),
            merged(Some(bridge("br1", Some(1))), Some(bridge("br1", Some(1))), bridge("br1", Some(1))),
            merged(Some(bridge("br2", None)), Some(bridge("br2", Some(1))), bridge("br2", None)),
            merged(Some(bridge("br3", Some(5))), None, bridge("br3", Some(5))),
            merged(Some(bridge("br4", Some(5))), Some(bridge("br4", None)), bridge("br4", Some(5))),
            merged(
                Some(bond("bond0", vec![("eth1", Some(1)), ("eth2", Some(2)), ("eth3", None)])),
                Some(bond("bond0", vec![("eth2", Some(2)), ("eth1", Some(7))])),
                bond("bond0", vec![]),
            ),
            merged(None, None, bond("bond1", vec![("eth9", Some(1))])),
            merged(Some(bond("bond2", vec![("eth4", Some(4))])), None, bond("bond2", vec![])),
        ],
        user_ifaces: vec![],
    }
}

#[test]
fn bridges_whose_default_port_vlan_changes() {
    let m = planned();
    let names: Vec<&str> = get_default_pvid_changed_brs(&m).iter().map(|n| n.as_str()).collect();
    assert_eq!(names, vec!["br0", "br4"]);
    let brs = get_default_pvid_changed_brs(&m);
    let port = port_of(conn("eth1", "u1", "eth1", NmIfaceType::Ethernet), "br0", NmIfaceType::Bridge);
    assert!(is_bridge_port_changed_default_pvid(&port, &brs));
    let port = port_of(conn("eth1", "u1", "eth1", NmIfaceType::Ethernet), "br1", NmIfaceType::Bridge);
    assert!(!is_bridge_port_changed_default_pvid(&port, &brs));
    let port = port_of(conn("eth1", "u1", "eth1", NmIfaceType::Ethernet), "br0", NmIfaceType::Bond);
    assert!(!is_bridge_port_changed_default_pvid(&port, &brs));
    assert!(!is_bridge_port_changed_default_pvid(
        &conn("br0", "u1", "br0", NmIfaceType::Bridge),
        &brs
    ));
}

#[test]
fn bond_ports_whose_queue_id_changes() {
    let m = planned();
    let names: Vec<&str> =
        get_bond_ports_with_queue_id_changed(&m).iter().map(|n| n.as_str()).collect();
    assert_eq!(names, vec!["eth1", "eth4"]);
    let ports = get_bond_ports_with_queue_id_changed(&m);
    let port = port_of(conn("eth1", "u1", "eth1", NmIfaceType::Ethernet), "bond0", NmIfaceType::Bond);
    assert!(is_bond_port_queue_id_changed(&port, &ports));
    let port = port_of(conn("eth2", "u1", "eth2", NmIfaceType::Ethernet), "bond0", NmIfaceType::Bond);
    assert!(!is_bond_port_queue_id_changed(&port, &ports));
    let port = port_of(conn("eth1", "u1", "eth1", NmIfaceType::Ethernet), "br0", NmIfaceType::Bridge);
    assert!(!is_bond_port_queue_id_changed(&port, &ports));
}

fn none() -> MergedInterfaces {
    MergedInterfaces { kernel_ifaces: vec![], user_ifaces: vec![] }
}

fn vrf(uuid: &str, table: u32) -> NmConnection {
    let mut c = conn("vrf0", uuid, "vrf0", NmIfaceType::Vrf);
    c.vrf = Some(NmSettingVrf { table: Some(table) });
    c
}

fn uuids(conns: &[&NmConnection]) -> Vec<String> {
    conns.iter().map(|c| c.uuid().unwrap().clone()).collect()
}

#[test]
fn changed_vrf_table_takes_the_active_profile_down_first() {
    let active = vrf("u1", 10);
    let mut desired = vrf("u1", 20);
    desired.wired = Some(NmSettingWired { mac_address: None, mtu: Some(9000) });
    let got = gen_nm_conn_need_to_deactivate_first(&none(), &vec![desired], &vec![&active]);
    assert_eq!(got.len(), 1);
    assert_eq!(got[0], &active);
    assert_eq!(got[0].vrf, Some(NmSettingVrf { table: Some(10) }));
}

#[test]
fn change_of_the_mtu_alone_is_applied_in_place() {
    let mut active = conn("eth1", "u1", "eth1", NmIfaceType::Ethernet);
    active.wired = Some(NmSettingWired { mac_address: None, mtu: Some(1500) });
    let mut desired = conn("eth1", "u1", "eth1", NmIfaceType::Ethernet);
    desired.wired = Some(NmSettingWired { mac_address: None, mtu: Some(9000) });
    assert!(gen_nm_conn_need_to_deactivate_first(&none(), &vec![desired], &vec![&active]).is_empty());
    let unchanged = vrf("u1", 10);
    let same_table =
        gen_nm_conn_need_to_deactivate_first(&none(), &vec![vrf("u1", 10)], &vec![&unchanged]);
    assert!(same_table.is_empty());
}

#[test]
fn only_active_profiles_are_taken_down_first() {
    let active1 = vrf("u1", 10);
    let active1_again = vrf("u1", 20);
    let active3 = vrf("u3", 10);
    let mut no_uuid = vrf("x", 99);
    no_uuid.connection.as_mut().unwrap().uuid = None;
    let to_activate = vec![vrf("u3", 11), vrf("u2", 20), no_uuid, vrf("u1", 20)];
    let got = gen_nm_conn_need_to_deactivate_first(
        &none(),
        &to_activate,
        &vec![&active1, &active1_again, &active3],
    );
    assert_eq!(uuids(&got), vec!["u3".to_string(), "u1".to_string()]);
    assert_eq!(got[1].vrf, Some(NmSettingVrf { table: Some(10) }));
}

#[test]
fn ports_are_taken_down_first_with_their_controller() {
    let m = planned();
    let bridge_port =
        port_of(conn("eth7", "u7", "eth7", NmIfaceType::Ethernet), "br0", NmIfaceType::Bridge);
    let bond_port =
        port_of(conn("eth1", "u8", "eth1", NmIfaceType::Ethernet), "bond0", NmIfaceType::Bond);
    let calm = port_of(conn("eth2", "u9", "eth2", NmIfaceType::Ethernet), "bond0", NmIfaceType::Bond);
    let active = vec![
        conn("eth7", "u7", "eth7", NmIfaceType::Ethernet),
        conn("eth1", "u8", "eth1", NmIfaceType::Ethernet),
        conn("eth2", "u9", "eth2", NmIfaceType::Ethernet),
    ];
    let refs: Vec<&NmConnection> = active.iter().collect();
    let got = gen_nm_conn_need_to_deactivate_first(&m, &vec![bridge_port, calm, bond_port], &refs);
    assert_eq!(uuids(&got), vec!["u7".to_string(), "u8".to_string()]);
}

#[test]
fn vpn_profiles_are_always_taken_down_first() {
    let active = conn("vpn", "u1", "vpn", NmIfaceType::Vpn);
    let desired = conn("vpn", "u1", "vpn", NmIfaceType::Vpn);
    let got = gen_nm_conn_need_to_deactivate_first(&none(), &vec![desired], &vec![&active]);
    assert_eq!(got.len(), 1);
}

fn route(dest: &str) -> NmIpRoute {
    NmIpRoute { dest: s(dest), prefix: Some(24), next_hop: s("192.0.2.1"), table: None, metric: None }
}

fn with_routes(v4: Vec<NmIpRoute>, v6: Vec<NmIpRoute>) -> NmConnection {
    let mut c = conn("eth1", "u1", "eth1", NmIfaceType::Ethernet);
    c.ipv4 =
        Some(NmSettingIp { method: None, addresses: vec![], routes: v4, route_rules: vec![], may_fail: None });
    c.ipv6 =
        Some(NmSettingIp { method: None, addresses: vec![], routes: v6, route_rules: vec![], may_fail: None });
    c
}

#[test]
fn what_cannot_be_changed_in_place() {
    let cur = with_routes(vec![route("198.51.100.0"), route("203.0.113.0")], vec![route("2001:db8::")]);
    let same = with_routes(vec![route("203.0.113.0")], vec![route("2001:db8::"), route("198.51.100.0")]);
    let more = with_routes(
        vec![route("198.51.100.0"), route("203.0.113.0"), route("192.0.2.0")],
        vec![route("2001:db8::")],
    );
    let less = with_routes(vec![route("198.51.100.0")], vec![route("2001:db8::")]);
    let mut changed_route = route("198.51.100.0");
    changed_route.metric = Some(5);
    let other = with_routes(vec![changed_route, route("203.0.113.0")], vec![route("2001:db8::")]);
    let mut no_v6 = with_routes(vec![route("198.51.100.0"), route("203.0.113.0")], vec![]);
    no_v6.ipv6 = None;
    assert!(!is_route_removed(&same, &cur));
    assert!(!is_route_removed(&more, &cur));
    assert!(is_route_removed(&less, &cur));
    assert!(is_route_removed(&other, &cur));
    assert!(is_route_removed(&no_v6, &cur));
    assert!(!is_route_removed(&cur, &no_v6));
    assert!(!is_route_removed(&NmConnection::new(), &NmConnection::new()));

    assert!(is_vrf_table_id_changed(&vrf("u1", 20), &vrf("u1", 10)));
    assert!(!is_vrf_table_id_changed(&vrf("u1", 10), &vrf("u1", 10)));
    assert!(!is_vrf_table_id_changed(&vrf("u1", 10), &conn("a", "u1", "a", NmIfaceType::Vrf)));

    let vlan = |id: u32, protocol: Option<&str>| {
        let mut c = conn("vlan", "u1", "vlan", NmIfaceType::Vlan);
        c.vlan = Some(NmSettingVlan { parent: s("eth0"), id: Some(id), protocol: protocol.map(|p| p.to_string()) });
        c
    };
    assert!(is_vlan_changed(&vlan(7, None), &vlan(8, None)));
    assert!(is_vlan_changed(&vlan(7, Some("802.1ad")), &vlan(7, None)));
    assert!(!is_vlan_changed(&vlan(7, None), &vlan(7, None)));
    assert!(!is_vlan_changed(&vlan(7, None), &NmConnection::new()));

    let vxlan = |id: u32| {
        let mut c = conn("vxlan", "u1", "vxlan", NmIfaceType::Vxlan);
        c.vxlan = Some(NmSettingVxlan { parent: None, id: Some(id), remote: None, dst_port: None });
        c
    };
    assert!(is_vxlan_changed(&vxlan(1), &vxlan(2)));
    assert!(!is_vxlan_changed(&vxlan(1), &vxlan(1)));

    let veth = |peer: &str| {
        let mut c = conn("veth", "u1", "veth", NmIfaceType::Veth);
        let mut d = DbusDictionary::new();
        d.insert("peer".to_string(), DbusValue::Str(peer.to_string()));
        c.veth = Some(NmSettingVeth::try_from(d).unwrap());
        c
    };
    assert!(is_veth_peer_changed(&veth("a"), &veth("b")));
    assert!(!is_veth_peer_changed(&veth("a"), &veth("a")));
    assert!(!is_veth_peer_changed(&veth("a"), &NmConnection::new()));

    let mptcp = |flags: Option<u32>| {
        let mut c = conn("eth", "u1", "eth", NmIfaceType::Ethernet);
        c.connection.as_mut().unwrap().mptcp_flags = flags;
        c
    };
    assert!(is_mptcp_flags_changed(&mptcp(Some(1)), &mptcp(Some(2))));
    assert!(is_mptcp_flags_changed(&mptcp(Some(1)), &mptcp(None)));
    assert!(is_mptcp_flags_changed(&mptcp(Some(1)), &NmConnection::new()));
    assert!(!is_mptcp_flags_changed(&mptcp(Some(1)), &mptcp(Some(1))));
    assert!(!is_mptcp_flags_changed(&mptcp(None), &NmConnection::new()));

    let ipvlan = |mode: u32| {
        let mut c = conn("ipvlan", "u1", "ipvlan", NmIfaceType::Ipvlan);
        let mut d = DbusDictionary::new();
        d.insert("mode".to_string(), DbusValue::U32(mode));
        c.ipvlan = Some(NmSettingIpVlan::try_from(d).unwrap());
        c
    };
    assert!(is_ipvlan_changed(&ipvlan(1), &ipvlan(2)));
    assert!(!is_ipvlan_changed(&ipvlan(1), &ipvlan(1)));
    assert!(!is_ipvlan_changed(&ipvlan(1), &NmConnection::new()));
}
