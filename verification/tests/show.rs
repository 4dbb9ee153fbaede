use nmstate::base_iface::{
    BaseInterface, Ieee8021XConfig, InterfaceIdentifier, InterfaceIp, InterfaceState,
    InterfaceType, LldpConfig, LldpNeighbor, WaitIp,
};
use nmstate::iface::{BondConfig, BondOptions, Interface, InterfaceKind, Interfaces, MacSecConfig};
use nmstate::nm::connection::{
    NmActiveConnection, NmConnection, NmDevice, NmDeviceState, NmLldpNeighbor, NmSettingBond,
    NmSettingConnection, NmSettingIp, NmSettingIpMethod, NmSettingMacSec, NmSettingUser,
    NmSettingWired,
};
use nmstate::nm::ieee8021x::NmSetting8021X;
use nmstate::nm::iface_type::NmIfaceType;
use nmstate::nm::query::{
    get_bond_balance_slb, get_description, is_lldp_enabled, nm_ip_setting_to_nmstate4,
    nm_ip_setting_to_nmstate6, query_nmstate_wait_ip,
};
use nmstate::nm::show::{
    get_connection_name, get_first_nm_conn, get_identifier_and_mac, get_nm_ac, iface_get,
    lldp_query_needed, nm_conn_to_base_iface, nm_dev_to_nm_iface, nm_retrieve, retrieve_device,
    set_dispatches, set_dns,
};
use nmstate::base_iface::DispatchConfig;
use nmstate::state::{DnsClientState, DnsState};
use nmstate::nm::value::{DbusDictionary, DbusValue};
use nmstate::strmap::StrMap;

fn s(text: &str) -> Option<String> {
    Some(text.to_string())
}

fn setting(
    id: &str,
    uuid: &str,
    iface_name: Option<&str>,
    iface_type: Option<NmIfaceType>,
) -> NmSettingConnection {
    NmSettingConnection {
        id: s(id),
        uuid: s(uuid),
        iface_type,
        iface_name: iface_name.map(|n| n.to_string()),
        controller: None,
        controller_type: None,
        lldp: None,
        mptcp_flags: None,
    }
}

fn conn(id: &str, uuid: &str, iface_name: &str, iface_type: NmIfaceType) -> NmConnection {
    let mut c = NmConnection::new();
    c.connection = Some(setting(id, uuid, Some(iface_name), Some(iface_type)));
    c
}

fn dev(name: &str, iface_type: NmIfaceType, state: NmDeviceState) -> NmDevice {
    NmDevice {
        name: name.to_string(),
        iface_type,
        state,
        obj_path: format!("/org/freedesktop/NetworkManager/Devices/{name}"),
        real: true,
        mac_address: "00:11:22:33:44:55".to_string(),
    }
}

fn ac(uuid: &str, iface_name: &str, iface_type: NmIfaceType, state_flags: u32) -> NmActiveConnection {
    NmActiveConnection {
        uuid: uuid.to_string(),
        iface_type,
        iface_name: iface_name.to_string(),
        state_flags,
    }
}

fn ip_setting(method: Option<NmSettingIpMethod>, addresses: Vec<&str>) -> NmSettingIp {
    NmSettingIp {
        method,
        addresses: addresses.into_iter().map(|a| a.to_string()).collect(),
        routes: vec![],
        route_rules: vec![],
        may_fail: None,
    }
}

fn neighbor(chassis: &str) -> NmLldpNeighbor {
    NmLldpNeighbor { chassis_id: s(chassis), port_id: None, system_name: s("switch") }
}

#[test]
fn identifier_is_the_mac_address_where_the_profile_names_one() {
    let mut c = conn("eth1", "u1", "eth1", NmIfaceType::Ethernet);
    assert_eq!(get_identifier_and_mac(&c), (Some(InterfaceIdentifier::Name), None));
    c.wired = Some(NmSettingWired { mac_address: None, mtu: Some(1500) });
    assert_eq!(get_identifier_and_mac(&c), (Some(InterfaceIdentifier::Name), None));
    c.wired = Some(NmSettingWired { mac_address: s(""), mtu: None });
    assert_eq!(get_identifier_and_mac(&c), (Some(InterfaceIdentifier::Name), None));
    c.wired = Some(NmSettingWired { mac_address: s("00:11:22:33:44:55"), mtu: None });
    assert_eq!(
        get_identifier_and_mac(&c),
        (Some(InterfaceIdentifier::MacAddress), s("00:11:22:33:44:55"))
    );
}

#[test]
fn saved_profile_of_the_same_uuid_names_the_profile() {
    let applied = conn("old-name", "u1", "eth1", NmIfaceType::Ethernet);
    let saved = conn("new-name", "u1", "eth1", NmIfaceType::Ethernet);
    let other = conn("other", "u2", "eth1", NmIfaceType::Ethernet);
    assert_eq!(get_connection_name(&applied, None), s("old-name"));
    assert_eq!(get_connection_name(&applied, Some(&saved)), s("new-name"));
    assert_eq!(get_connection_name(&applied, Some(&other)), s("old-name"));
    let mut unnamed = conn("x", "u1", "eth1", NmIfaceType::Ethernet);
    unnamed.connection.as_mut().unwrap().id = None;
    assert_eq!(get_connection_name(&applied, Some(&unnamed)), None);
    let empty = NmConnection::new();
    assert_eq!(get_connection_name(&empty, None), None);
    assert_eq!(get_connection_name(&applied, Some(&empty)), s("old-name"));
    assert_eq!(get_connection_name(&empty, Some(&empty)), None);
}

#[test]
fn first_profile_for_a_name_and_kind() {
    let conns = vec![
        conn("a", "u1", "eth1", NmIfaceType::Bridge),
        conn("b", "u2", "eth1", NmIfaceType::Veth),
        conn("c", "u3", "eth1", NmIfaceType::Ethernet),
        conn("d", "u4", "eth2", NmIfaceType::Ethernet),
        NmConnection::new(),
    ];
    let found = get_first_nm_conn(&conns, "eth1", &NmIfaceType::Ethernet).unwrap();
    assert_eq!(found.uuid(), Some(&"u2".to_string()));
    let found = get_first_nm_conn(&conns, "eth1", &NmIfaceType::Veth).unwrap();
    assert_eq!(found.uuid(), Some(&"u2".to_string()));
    let found = get_first_nm_conn(&conns, "eth2", &NmIfaceType::Veth).unwrap();
    assert_eq!(found.uuid(), Some(&"u4".to_string()));
    assert!(get_first_nm_conn(&conns, "eth1", &NmIfaceType::Bond).is_none());
    assert!(get_first_nm_conn(&conns, "eth3", &NmIfaceType::Ethernet).is_none());
    assert!(get_first_nm_conn(&vec![], "eth1", &NmIfaceType::Ethernet).is_none());
}

#[test]
fn last_activation_for_a_name_and_kind() {
    let acs = vec![
        ac("u1", "eth1", NmIfaceType::Ethernet, 0),
        ac("u2", "eth1", NmIfaceType::Veth, 0),
        ac("u3", "eth1", NmIfaceType::Bridge, 0),
        ac("u4", "eth2", NmIfaceType::Ethernet, 0),
    ];
    assert_eq!(get_nm_ac(&acs, "eth1", &NmIfaceType::Ethernet).unwrap().uuid, "u2");
    assert_eq!(get_nm_ac(&acs, "eth1", &NmIfaceType::Veth).unwrap().uuid, "u2");
    assert_eq!(get_nm_ac(&acs, "eth1", &NmIfaceType::Bridge).unwrap().uuid, "u3");
    assert!(get_nm_ac(&acs, "eth1", &NmIfaceType::Bond).is_none());
    assert!(get_nm_ac(&acs, "eth9", &NmIfaceType::Ethernet).is_none());
}

#[test]
fn device_without_profile() {
    let i = nm_dev_to_nm_iface(&dev("eth1", NmIfaceType::Ethernet, NmDeviceState::Disconnected))
        .unwrap();
    assert_eq!(i.kind(), InterfaceKind::Ethernet);
    let mut want = BaseInterface::new();
    want.name = "eth1".to_string();
    want.state = InterfaceState::Down;
    want.iface_type = InterfaceType::Ethernet;
    assert_eq!(i.base_iface(), &want);

    let i = nm_dev_to_nm_iface(&dev("br0", NmIfaceType::Bridge, NmDeviceState::Unmanaged)).unwrap();
    assert_eq!(i.kind(), InterfaceKind::LinuxBridge);
    assert_eq!(i.base_iface().state, InterfaceState::Ignore);
    assert_eq!(i.iface_type(), &InterfaceType::LinuxBridge);

    let i = nm_dev_to_nm_iface(&dev("ib0", NmIfaceType::Infiniband, NmDeviceState::Activated))
        .unwrap();
    assert_eq!(i.kind(), InterfaceKind::InfiniBand);
    assert_eq!(i.base_iface().state, InterfaceState::Up);

    let i = nm_dev_to_nm_iface(&dev("veth0", NmIfaceType::Veth, NmDeviceState::Activated)).unwrap();
    assert_eq!(i.kind(), InterfaceKind::Ethernet);
    assert_eq!(i.iface_type(), &InterfaceType::Ethernet);
}

#[test]
fn device_that_stands_for_no_interface() {
    assert_eq!(nm_dev_to_nm_iface(&dev("", NmIfaceType::Ethernet, NmDeviceState::Activated)), None);
    let mut unreal = dev("eth1", NmIfaceType::Ethernet, NmDeviceState::Unmanaged);
    unreal.real = false;
    assert_eq!(nm_dev_to_nm_iface(&unreal), None);
    unreal.state = NmDeviceState::Disconnected;
    assert!(nm_dev_to_nm_iface(&unreal).is_some());
    assert_eq!(
        nm_dev_to_nm_iface(&dev("port0", NmIfaceType::OvsPort, NmDeviceState::Disconnected)),
        None
    );
    assert_eq!(
        nm_dev_to_nm_iface(&dev(
            "port0",
            NmIfaceType::Other("ovs-port".to_string()),
            NmDeviceState::Disconnected
        )),
        None
    );
}

#[test]
fn device_of_a_kind_that_is_not_held() {
    let i = nm_dev_to_nm_iface(&dev("tun0", NmIfaceType::Tun, NmDeviceState::Disconnected)).unwrap();
    assert_eq!(i.kind(), InterfaceKind::Unknown);
    assert_eq!(i.base_iface().state, InterfaceState::Ignore);
    assert_eq!(i.iface_type(), &InterfaceType::Unknown);

    let mut d = dev("wg0", NmIfaceType::Other("wireguard".to_string()), NmDeviceState::Activated);
    d.mac_address = String::new();
    let i = nm_dev_to_nm_iface(&d).unwrap();
    assert_eq!(i.kind(), InterfaceKind::Unknown);
    assert_eq!(i.base_iface().state, InterfaceState::Ignore);
    assert_eq!(i.iface_type(), &InterfaceType::Other("wireguard".to_string()));

    let i = nm_dev_to_nm_iface(&dev(
        "lo",
        NmIfaceType::Other("generic".to_string()),
        NmDeviceState::Activated,
    ))
    .unwrap();
    assert_eq!(i.kind(), InterfaceKind::Loopback);
    assert_eq!(i.base_iface().state, InterfaceState::Ignore);
    assert_eq!(i.iface_type(), &InterfaceType::Loopback);

    let i = nm_dev_to_nm_iface(&dev("vpn0", NmIfaceType::Vpn, NmDeviceState::Activated)).unwrap();
    assert_eq!(i.kind(), InterfaceKind::Unknown);
    assert_eq!(i.iface_type(), &InterfaceType::Unknown);
}

#[test]
fn attributes_read_from_a_profile() {
    let mut c = conn("eth1", "u1", "eth1", NmIfaceType::Ethernet);
    assert_eq!(get_description(&c), None);
    assert!(!is_lldp_enabled(&c));
    assert_eq!(get_bond_balance_slb(&c), None);
    let mut data = StrMap::new();
    data.insert("nmstate.interface.description".to_string(), "uplink".to_string());
    c.user = Some(NmSettingUser { data: Some(data) });
    assert_eq!(get_description(&c), s("uplink"));
    c.connection.as_mut().unwrap().lldp = Some(1);
    assert!(is_lldp_enabled(&c));
    c.connection.as_mut().unwrap().lldp = Some(0);
    assert!(!is_lldp_enabled(&c));
    let mut options = StrMap::new();
    options.insert("mode".to_string(), "balance-xor".to_string());
    c.bond = Some(NmSettingBond { options: options.clone() });
    assert_eq!(get_bond_balance_slb(&c), None);
    options.insert("balance-slb".to_string(), "1".to_string());
    c.bond = Some(NmSettingBond { options: options.clone() });
    assert_eq!(get_bond_balance_slb(&c), Some(true));
    options.insert("balance-slb".to_string(), "0".to_string());
    c.bond = Some(NmSettingBond { options });
    assert_eq!(get_bond_balance_slb(&c), Some(false));
}

#[test]
fn ip_settings_of_a_profile() {
    let v4 = nm_ip_setting_to_nmstate4(&ip_setting(Some(NmSettingIpMethod::Auto), vec![]));
    assert!(v4.enabled);
    assert_eq!(v4.dhcp, Some(true));
    assert_eq!(v4.autoconf, None);
    assert_eq!(v4.addresses, None);
    let v4 = nm_ip_setting_to_nmstate4(&ip_setting(
        Some(NmSettingIpMethod::Manual),
        vec!["192.0.2.1/24"],
    ));
    assert!(v4.enabled);
    assert_eq!(v4.dhcp, Some(false));
    assert_eq!(v4.addresses, Some(vec!["192.0.2.1/24".to_string()]));
    let v4 = nm_ip_setting_to_nmstate4(&ip_setting(
        Some(NmSettingIpMethod::Disabled),
        vec!["192.0.2.1/24"],
    ));
    assert_eq!(v4, InterfaceIp::new());
    assert_eq!(nm_ip_setting_to_nmstate4(&ip_setting(None, vec![])), InterfaceIp::new());

    let v6 = nm_ip_setting_to_nmstate6(&ip_setting(Some(NmSettingIpMethod::Auto), vec![]));
    assert_eq!((v6.enabled, v6.dhcp, v6.autoconf), (true, Some(true), Some(true)));
    let v6 = nm_ip_setting_to_nmstate6(&ip_setting(Some(NmSettingIpMethod::Dhcp), vec![]));
    assert_eq!((v6.enabled, v6.dhcp, v6.autoconf), (true, Some(true), Some(false)));
    let v6 = nm_ip_setting_to_nmstate6(&ip_setting(Some(NmSettingIpMethod::LinkLocal), vec![]));
    assert_eq!((v6.enabled, v6.dhcp, v6.autoconf), (true, Some(false), Some(false)));
    let v6 = nm_ip_setting_to_nmstate6(&ip_setting(Some(NmSettingIpMethod::Ignore), vec![]));
    assert_eq!(v6, InterfaceIp::new());
}

#[test]
fn waiting_for_addresses() {
    let mut v4 = ip_setting(Some(NmSettingIpMethod::Auto), vec![]);
    let mut v6 = ip_setting(Some(NmSettingIpMethod::Auto), vec![]);
    assert_eq!(query_nmstate_wait_ip(Some(&v4), Some(&v6)), Some(WaitIp::Any));
    v4.may_fail = Some(false);
    assert_eq!(query_nmstate_wait_ip(Some(&v4), Some(&v6)), Some(WaitIp::Ipv4));
    v6.may_fail = Some(false);
    assert_eq!(query_nmstate_wait_ip(Some(&v4), Some(&v6)), Some(WaitIp::Ipv4AndIpv6));
    v4.may_fail = Some(true);
    assert_eq!(query_nmstate_wait_ip(Some(&v4), Some(&v6)), Some(WaitIp::Ipv6));
    assert_eq!(query_nmstate_wait_ip(None, Some(&v6)), None);
    assert_eq!(query_nmstate_wait_ip(Some(&v4), None), None);
    assert_eq!(query_nmstate_wait_ip(None, None), None);
}

#[test]
fn base_of_the_interface_of_a_profile() {
    let mut c = conn("uplink", "u1", "eth1", NmIfaceType::Ethernet);
    c.ipv4 = Some(ip_setting(Some(NmSettingIpMethod::Auto), vec![]));
    c.wired = Some(NmSettingWired { mac_address: s("00:11:22:33:44:55"), mtu: None });
    let mut saved = conn("uplink-renamed", "u1", "eth1", NmIfaceType::Ethernet);
    let mut d = DbusDictionary::new();
    d.insert("identity".to_string(), DbusValue::Str("client".to_string()));
    saved.ieee8021x = Some(NmSetting8021X::try_from(d).unwrap());
    let d = dev("eth1", NmIfaceType::Ethernet, NmDeviceState::Activated);

    let base =
        nm_conn_to_base_iface(Some(&d), &c, Some(&saved), Some(vec![neighbor("c1")])).unwrap();
    let mut want = BaseInterface::new();
    want.name = "eth1".to_string();
    want.state = InterfaceState::Up;
    want.iface_type = InterfaceType::Ethernet;
    let mut v4 = InterfaceIp::new();
    v4.enabled = true;
    v4.dhcp = Some(true);
    want.ipv4 = Some(v4);
    want.identifier = Some(InterfaceIdentifier::MacAddress);
    want.mac_address = s("00:11:22:33:44:55");
    want.profile_name = s("uplink-renamed");
    want.lldp = Some(LldpConfig {
        enabled: true,
        neighbors: vec![LldpNeighbor {
            chassis_id: s("c1"),
            port_id: None,
            system_name: s("switch"),
        }],
    });
    want.ieee8021x = Some(Ieee8021XConfig {
        identity: s("client"),
        eap: None,
        private_key: None,
        client_cert: None,
        ca_cert: None,
        private_key_password: None,
    });
    assert_eq!(base, want);

    let base = nm_conn_to_base_iface(None, &c, None, None).unwrap();
    assert_eq!(base.iface_type, InterfaceType::Unknown);
    assert_eq!(base.profile_name, s("uplink"));
    assert_eq!(base.lldp, Some(LldpConfig { enabled: false, neighbors: vec![] }));
    assert_eq!(base.ieee8021x, None);
}

#[test]
fn profile_name_is_not_shown_where_it_is_the_interface_name() {
    let c = conn("eth1", "u1", "eth1", NmIfaceType::Ethernet);
    let base = nm_conn_to_base_iface(None, &c, None, None).unwrap();
    assert_eq!(base.profile_name, None);
    assert_eq!(base.identifier, Some(InterfaceIdentifier::Name));
    assert_eq!(base.mac_address, None);
}

#[test]
fn profile_for_no_interface() {
    let mut c = NmConnection::new();
    assert_eq!(nm_conn_to_base_iface(None, &c, None, None), None);
    c.connection = Some(setting("vpn1", "u1", None, Some(NmIfaceType::Ethernet)));
    assert_eq!(nm_conn_to_base_iface(None, &c, None, None), None);
    c.connection = Some(setting("vpn1", "u1", None, Some(NmIfaceType::Vpn)));
    let base = nm_conn_to_base_iface(None, &c, None, None).unwrap();
    assert_eq!(base.name, "vpn1");
    assert_eq!(base.profile_name, None);
    let d = dev("eth1", NmIfaceType::Ethernet, NmDeviceState::Activated);
    assert_eq!(iface_get(&d, &NmConnection::new(), None, None), None);
}

#[test]
fn interface_of_a_profile_on_a_device() {
    let d = dev("bond0", NmIfaceType::Bond, NmDeviceState::Activated);
    let mut c = conn("bond0", "u1", "bond0", NmIfaceType::Bond);
    let mut options = StrMap::new();
    options.insert("balance-slb".to_string(), "1".to_string());
    c.bond = Some(NmSettingBond { options });
    match iface_get(&d, &c, None, None).unwrap() {
        Interface::Bond(b) => {
            assert_eq!(b.base.name, "bond0");
            assert_eq!(b.base.iface_type, InterfaceType::Bond);
            assert_eq!(
                b.bond,
                Some(BondConfig {
                    options: Some(BondOptions { balance_slb: Some(true), miimon: None }),
                    port: None,
                    ports_config: None,
                })
            );
        }
        other => panic!("not a bond: {other:?}"),
    }

    let d = dev("macsec0", NmIfaceType::Macsec, NmDeviceState::Activated);
    let mut c = conn("macsec0", "u2", "macsec0", NmIfaceType::Macsec);
    match iface_get(&d, &c, None, None).unwrap() {
        Interface::MacSec(m) => assert_eq!(m.macsec, None),
        other => panic!("not MACsec: {other:?}"),
    }
    c.macsec = Some(NmSettingMacSec { parent: s("eth0"), mka_cak: s("applied"), mka_ckn: s("ckn") });
    let mut saved = conn("macsec0", "u2", "macsec0", NmIfaceType::Macsec);
    match iface_get(&d, &c, Some(&saved), None).unwrap() {
        Interface::MacSec(m) => {
            assert_eq!(m.macsec, Some(MacSecConfig { mka_cak: None, mka_ckn: s("ckn") }))
        }
        other => panic!("not MACsec: {other:?}"),
    }
    saved.macsec = Some(NmSettingMacSec { parent: None, mka_cak: s("saved"), mka_ckn: s("x") });
    match iface_get(&d, &c, Some(&saved), None).unwrap() {
        Interface::MacSec(m) => {
            assert_eq!(m.macsec, Some(MacSecConfig { mka_cak: s("saved"), mka_ckn: s("ckn") }))
        }
        other => panic!("not MACsec: {other:?}"),
    }

    let d = dev("ib0", NmIfaceType::Infiniband, NmDeviceState::Activated);
    let c = conn("ib0", "u3", "ib0", NmIfaceType::Infiniband);
    assert_eq!(iface_get(&d, &c, None, None), None);
    let d = dev("tun0", NmIfaceType::Tun, NmDeviceState::Activated);
    let c = conn("tun0", "u4", "tun0", NmIfaceType::Tun);
    assert_eq!(iface_get(&d, &c, None, None), None);
    let d = dev("vlan7", NmIfaceType::Vlan, NmDeviceState::Activated);
    let c = conn("vlan7", "u5", "vlan7", NmIfaceType::Vlan);
    assert_eq!(iface_get(&d, &c, None, None).unwrap().kind(), InterfaceKind::Vlan);
}

#[test]
fn what_a_device_contributes() {
    let devs = vec![
        dev("eth1", NmIfaceType::Ethernet, NmDeviceState::Activated),
        dev("ovs0", NmIfaceType::Tun, NmDeviceState::Activated),
        dev("ovs0", NmIfaceType::OvsIface, NmDeviceState::Activated),
        dev("ip_vti0", NmIfaceType::Other("vti".to_string()), NmDeviceState::Unmanaged),
        dev("eth2", NmIfaceType::Ethernet, NmDeviceState::Activated),
        dev("eth3", NmIfaceType::Ethernet, NmDeviceState::Activated),
        dev("tun9", NmIfaceType::Tun, NmDeviceState::Disconnected),
    ];
    let mut applied = conn("eth1-old", "u1", "eth1", NmIfaceType::Ethernet);
    applied.connection.as_mut().unwrap().lldp = Some(1);
    let conns = vec![applied, conn("eth2", "u2", "eth2", NmIfaceType::Ethernet)];
    let saved = vec![
        conn("eth1-first", "u1", "eth1", NmIfaceType::Ethernet),
        conn("eth1-last", "u1", "eth1", NmIfaceType::Ethernet),
    ];
    let acs = vec![
        ac("u1", "eth1", NmIfaceType::Ethernet, 0),
        ac("u2", "eth2", NmIfaceType::Ethernet, 0x80),
    ];

    let i = retrieve_device(false, &conns, &devs, &saved, &acs, Some(vec![neighbor("c1")]), &devs[0])
        .unwrap();
    assert_eq!(i.base_iface().profile_name, s("eth1-last"));
    assert_eq!(i.base_iface().lldp.as_ref().unwrap().neighbors.len(), 1);
    let i = retrieve_device(true, &conns, &devs, &saved, &acs, Some(vec![neighbor("c1")]), &devs[0])
        .unwrap();
    assert_eq!(i.base_iface().lldp, Some(LldpConfig { enabled: true, neighbors: vec![] }));
    let i = retrieve_device(false, &conns, &devs, &saved, &acs, None, &devs[0]).unwrap();
    assert_eq!(i.base_iface().lldp, Some(LldpConfig { enabled: true, neighbors: vec![] }));

    assert_eq!(retrieve_device(false, &conns, &devs, &saved, &acs, None, &devs[1]), None);
    assert!(retrieve_device(false, &conns, &devs, &saved, &acs, None, &devs[2]).is_none());
    assert_eq!(retrieve_device(false, &conns, &devs, &saved, &acs, None, &devs[3]), None);

    let external = retrieve_device(false, &conns, &devs, &saved, &acs, None, &devs[4]).unwrap();
    assert_eq!(external.base_iface().profile_name, None);
    assert_eq!(external.base_iface().lldp, None);
    assert_eq!(external.base_iface().state, InterfaceState::Up);

    assert_eq!(retrieve_device(false, &conns, &devs, &saved, &acs, None, &devs[5]), None);

    let ignored = retrieve_device(false, &conns, &devs, &saved, &acs, None, &devs[6]).unwrap();
    assert_eq!(ignored.base_iface().state, InterfaceState::Ignore);

    assert!(lldp_query_needed(false, &conns, &devs, &acs, &devs[0]));
    assert!(!lldp_query_needed(true, &conns, &devs, &acs, &devs[0]));
    assert!(!lldp_query_needed(false, &conns, &devs, &acs, &devs[1]));
    assert!(!lldp_query_needed(false, &conns, &devs, &acs, &devs[4]));
    assert!(!lldp_query_needed(false, &conns, &devs, &acs, &devs[5]));
    assert!(!lldp_query_needed(false, &conns, &devs, &acs, &devs[6]));
}

#[test]
fn state_of_a_host() {
    let devs = vec![
        dev("eth1", NmIfaceType::Ethernet, NmDeviceState::Activated),
        dev("br0", NmIfaceType::OvsBridge, NmDeviceState::Disconnected),
        dev("eth0", NmIfaceType::Ethernet, NmDeviceState::Disconnected),
        dev("eth1", NmIfaceType::Ethernet, NmDeviceState::Disconnected),
    ];
    let conns = vec![conn("eth1", "u1", "eth1", NmIfaceType::Ethernet)];
    let mut vpn_base = BaseInterface::new();
    vpn_base.name = "vpn1".to_string();
    vpn_base.iface_type = InterfaceType::Ipsec;
    let vpn = Interface::Ipsec(Box::new(nmstate::iface::IpsecInterface {
        base: vpn_base,
        libreswan: None,
    }));
    let state = nm_retrieve(false, &conns, &devs, &vec![], &vec![], vec![], vec![vpn]);
    assert_eq!(state.dns, None);
    let kernel: Vec<(&str, InterfaceState)> = state
        .interfaces
        .kernel_ifaces
        .iter()
        .map(|i| (i.name().as_str(), i.base_iface().state))
        .collect();
    assert_eq!(kernel, vec![("eth1", InterfaceState::Down), ("eth0", InterfaceState::Down)]);
    let user: Vec<(&str, InterfaceKind)> =
        state.interfaces.user_ifaces.iter().map(|i| (i.name().as_str(), i.kind())).collect();
    assert_eq!(user, vec![("br0", InterfaceKind::OvsBridge), ("vpn1", InterfaceKind::Ipsec)]);
}

#[test]
fn interfaces_are_keyed() {
    let mut all = Interfaces::new();
    let mut a = BaseInterface::new();
    a.name = "x".to_string();
    a.iface_type = InterfaceType::Ethernet;
    let mut b = BaseInterface::new();
    b.name = "x".to_string();
    b.iface_type = InterfaceType::Vlan;
    let mut c = BaseInterface::new();
    c.name = "x".to_string();
    c.iface_type = InterfaceType::OvsBridge;
    let mut d = BaseInterface::new();
    d.name = "x".to_string();
    d.iface_type = InterfaceType::Other("x".to_string());
    all.push(Interface::from_base(a).unwrap());
    all.push(Interface::from_base(b).unwrap());
    all.push(Interface::from_base(c).unwrap());
    all.push(Interface::Unknown(Box::new(nmstate::iface::UnknownInterface { base: d })));
    assert_eq!(all.kernel_ifaces.len(), 1);
    assert_eq!(all.kernel_ifaces[0].kind(), InterfaceKind::Vlan);
    assert_eq!(all.user_ifaces.len(), 2);
    assert!(all.kernel_ifaces[0].is_virtual());
    assert!(!all.user_ifaces[1].is_virtual());
    let down = Interface::from_base(BaseInterface::new());
    assert_eq!(down, None);
}

#[test]
fn resolver_and_scripts_of_a_state() {
    let devs = vec![
        dev("eth0", NmIfaceType::Ethernet, NmDeviceState::Disconnected),
        dev("eth1", NmIfaceType::Ethernet, NmDeviceState::Disconnected),
        dev("br0", NmIfaceType::OvsBridge, NmDeviceState::Disconnected),
    ];
    let mut state = nm_retrieve(false, &vec![], &devs, &vec![], &vec![], vec![], vec![]);
    let client = |server: &str| DnsClientState {
        server: Some(vec![server.to_string()]),
        search: None,
        options: None,
    };
    set_dns(
        &mut state,
        DnsState { running: Some(client("192.0.2.53")), config: Some(client("192.0.2.54")) },
        false,
    );
    assert_eq!(
        state.dns,
        Some(DnsState { running: Some(client("192.0.2.53")), config: Some(client("192.0.2.54")) })
    );
    set_dns(
        &mut state,
        DnsState { running: Some(client("192.0.2.53")), config: Some(client("192.0.2.54")) },
        true,
    );
    assert_eq!(state.dns, Some(DnsState { running: None, config: Some(client("192.0.2.54")) }));

    let script = |text: &str| DispatchConfig { post_activation: s(text), post_deactivation: None };
    set_dispatches(
        &mut state,
        &vec![
            ("eth1".to_string(), script("first")),
            ("br0".to_string(), script("bridge")),
            ("eth9".to_string(), script("nobody")),
            ("eth1".to_string(), script("last")),
        ],
    );
    assert_eq!(state.interfaces.kernel_ifaces.len(), 2);
    assert_eq!(state.interfaces.kernel_ifaces[0].name(), "eth0");
    assert_eq!(state.interfaces.kernel_ifaces[0].base_iface().dispatch, None);
    assert_eq!(state.interfaces.kernel_ifaces[1].name(), "eth1");
    assert_eq!(state.interfaces.kernel_ifaces[1].base_iface().dispatch, Some(script("last")));
    assert_eq!(state.interfaces.kernel_ifaces[1].base_iface().state, InterfaceState::Down);
    assert_eq!(state.interfaces.user_ifaces[0].base_iface().dispatch, None);
    set_dispatches(&mut state, &vec![]);
    assert_eq!(state.interfaces.kernel_ifaces[1].base_iface().dispatch, Some(script("last")));
}
