use nmstate::overlay::merge;
use nmstate::base_iface::{
    BaseInterface, EthtoolConfig, InterfaceIp, InterfaceState, InterfaceType, LldpConfig,
    MptcpAddressFlag, MptcpConfig, WaitIp,
};

fn named(name: &str, props: Vec<&'static str>) -> BaseInterface {
    let mut base = BaseInterface::new();
    base.name = name.to_string();
    base.prop_list = props;
    base
}

fn ip(enabled: bool, addresses: Option<Vec<&str>>, props: Vec<&'static str>) -> InterfaceIp {
    let mut ip = InterfaceIp::new();
    ip.enabled = enabled;
    ip.addresses = addresses.map(|l| l.into_iter().map(|a| a.to_string()).collect());
    ip.prop_list = props;
    ip
}

fn same_set(a: &[&'static str], b: &[&'static str]) -> bool {
    a.iter().all(|x| b.contains(x)) && b.iter().all(|x| a.contains(x))
}

#[test]
fn new_base_is_empty() {
    let base = BaseInterface::new();
    assert_eq!(base.name, "");
    assert_eq!(base.iface_type, InterfaceType::Unknown);
    assert_eq!(base.state, InterfaceState::Up);
    assert!(base.prop_list.is_empty());
    assert_eq!(base.mtu, None);
    assert_eq!(base.ipv4, None);
}

#[test]
fn update_takes_only_what_was_set() {
    let mut current = named("eth1", vec!["name", "mtu"]);
    current.mtu = Some(1500);
    current.state = InterfaceState::Up;
    current.iface_type = InterfaceType::Ethernet;
    let mut desired = named("eth1", vec!["name", "state"]);
    desired.mtu = Some(9000);
    desired.state = InterfaceState::Down;
    current.update(&desired);
    assert_eq!(current.mtu, Some(1500));
    assert_eq!(current.state, InterfaceState::Down);
    assert_eq!(current.prop_list, vec!["name", "mtu", "state"]);
}

#[test]
fn update_clears_what_was_set_to_nothing() {
    let mut current = named("eth1", vec!["name", "mtu", "description"]);
    current.mtu = Some(1500);
    current.description = Some("uplink".to_string());
    let desired = named("eth1", vec!["mtu", "description"]);
    current.update(&desired);
    assert_eq!(current.mtu, None);
    assert_eq!(current.description, None);
}

#[test]
fn update_never_takes_an_unknown_kind() {
    let mut current = named("bond0", vec!["name", "iface_type"]);
    current.iface_type = InterfaceType::Bond;
    let mut desired = named("bond0", vec!["name", "iface_type"]);
    desired.iface_type = InterfaceType::Unknown;
    current.update(&desired);
    assert_eq!(current.iface_type, InterfaceType::Bond);

    let mut desired = named("bond0", vec!["iface_type"]);
    desired.iface_type = InterfaceType::Other("team".to_string());
    current.update(&desired);
    assert_eq!(current.iface_type, InterfaceType::Other("team".to_string()));
}

#[test]
fn update_takes_every_plain_attribute_that_was_set() {
    let mut current = named("eth1", vec![]);
    let mut desired = named(
        "eth2",
        vec![
            "name",
            "description",
            "iface_type",
            "state",
            "mtu",
            "min_mtu",
            "max_mtu",
            "mac_address",
            "permanent_mac_address",
            "controller",
            "controller_type",
            "accept_all_mac_addresses",
            "lldp",
            "ethtool",
            "mptcp",
            "wait_ip",
        ],
    );
    desired.description = Some("d".to_string());
    desired.iface_type = InterfaceType::Vlan;
    desired.state = InterfaceState::Absent;
    desired.mtu = Some(1400);
    desired.min_mtu = Some(68);
    desired.max_mtu = Some(9000);
    desired.mac_address = Some("00:11:22:33:44:55".to_string());
    desired.permanent_mac_address = Some("00:11:22:33:44:66".to_string());
    desired.controller = Some("br0".to_string());
    desired.controller_type = Some(InterfaceType::LinuxBridge);
    desired.accept_all_mac_addresses = Some(true);
    desired.lldp = Some(LldpConfig { enabled: true, neighbors: vec![] });
    desired.ethtool =
        Some(EthtoolConfig { pause_autoneg: Some(true), pause_rx: None, pause_tx: Some(false) });
    desired.mptcp = Some(MptcpConfig { address_flags: Some(vec![MptcpAddressFlag::Signal]) });
    desired.wait_ip = Some(WaitIp::Ipv4);
    current.update(&desired);
    assert_eq!(current.name, "eth2");
    assert_eq!(current.description, desired.description);
    assert_eq!(current.iface_type, InterfaceType::Vlan);
    assert_eq!(current.state, InterfaceState::Absent);
    assert_eq!(current.mtu, Some(1400));
    assert_eq!(current.min_mtu, Some(68));
    assert_eq!(current.max_mtu, Some(9000));
    assert_eq!(current.mac_address, desired.mac_address);
    assert_eq!(current.permanent_mac_address, desired.permanent_mac_address);
    assert_eq!(current.controller, desired.controller);
    assert_eq!(current.controller_type, desired.controller_type);
    assert_eq!(current.accept_all_mac_addresses, Some(true));
    assert_eq!(current.lldp, desired.lldp);
    assert_eq!(current.ethtool, desired.ethtool);
    assert_eq!(current.mptcp, desired.mptcp);
    assert_eq!(current.wait_ip, Some(WaitIp::Ipv4));
}

#[test]
fn update_leaves_identifier_profile_name_and_dispatch() {
    let mut current = named("eth1", vec![]);
    current.profile_name = Some("uplink".to_string());
    let mut desired = named("eth1", vec!["profile_name", "identifier", "dispatch"]);
    desired.profile_name = Some("other".to_string());
    current.update(&desired);
    assert_eq!(current.profile_name, Some("uplink".to_string()));
    assert_eq!(current.identifier, None);
    assert_eq!(current.dispatch, None);
    assert_eq!(current.prop_list, vec!["profile_name", "identifier", "dispatch"]);
}

#[test]
fn update_overlays_ip_blocks_when_both_have_one() {
    let mut current = named("eth1", vec!["ipv4"]);
    current.ipv4 = Some(ip(true, Some(vec!["192.0.2.1/24"]), vec!["enabled", "address"]));
    let mut desired = named("eth1", vec!["ipv4"]);
    let mut block = ip(false, None, vec!["dhcp"]);
    block.dhcp = Some(true);
    desired.ipv4 = Some(block);
    current.update(&desired);
    let merged = current.ipv4.unwrap();
    assert!(merged.enabled);
    assert_eq!(merged.dhcp, Some(true));
    assert_eq!(merged.addresses, Some(vec!["192.0.2.1/24".to_string()]));
    assert_eq!(merged.prop_list, vec!["enabled", "address", "dhcp"]);
}

#[test]
fn update_takes_an_ip_block_where_there_was_none() {
    let mut current = named("eth1", vec![]);
    let mut desired = named("eth1", vec!["ipv6"]);
    desired.ipv6 = Some(ip(true, None, vec!["enabled"]));
    current.update(&desired);
    assert_eq!(current.ipv6, desired.ipv6);
}

#[test]
fn update_keeps_an_ip_block_that_the_other_side_lacks() {
    let mut current = named("eth1", vec!["ipv4"]);
    current.ipv4 = Some(ip(true, None, vec!["enabled"]));
    let desired = named("eth1", vec!["ipv4"]);
    current.update(&desired);
    assert_eq!(current.ipv4, Some(ip(true, None, vec!["enabled"])));
}

#[test]
fn ip_update_takes_only_what_was_set() {
    let mut current = ip(true, Some(vec!["192.0.2.1/24"]), vec!["enabled", "address"]);
    let mut other = ip(false, Some(vec!["198.51.100.1/24"]), vec!["address", "autoconf"]);
    other.autoconf = Some(false);
    current.update(&other);
    assert!(current.enabled);
    assert_eq!(current.autoconf, Some(false));
    assert_eq!(current.addresses, Some(vec!["198.51.100.1/24".to_string()]));
    assert_eq!(current.prop_list, vec!["enabled", "address", "autoconf"]);
}

#[test]
fn overlay_is_idempotent() {
    let mut x = named("eth1", vec!["name", "mtu"]);
    x.mtu = Some(1500);
    x.ipv4 = Some(ip(true, None, vec!["enabled"]));
    let mut y = named("eth1", vec!["mtu", "state", "ipv4", "ipv6", "mtu"]);
    y.mtu = Some(9000);
    y.state = InterfaceState::Down;
    y.ipv4 = Some(ip(false, Some(vec!["192.0.2.1/24"]), vec!["address"]));
    y.ipv6 = Some(ip(true, None, vec!["enabled", "enabled"]));
    x.update(&y);
    let once = x.clone();
    x.update(&y);
    assert_eq!(x, once);
    assert_eq!(x.prop_list, vec!["name", "mtu", "state", "ipv4", "ipv6"]);
}

#[test]
fn overlays_of_disjoint_attributes_commute() {
    let mut x = named("eth1", vec!["name"]);
    x.mtu = Some(1500);
    let mut y = named("other", vec!["mtu", "ipv4"]);
    y.mtu = Some(9000);
    y.ipv4 = Some(ip(true, None, vec!["enabled"]));
    let mut z = named("eth9", vec!["state", "name", "description"]);
    z.state = InterfaceState::Down;
    z.description = Some("z".to_string());

    let mut yz = x.clone();
    yz.update(&y);
    yz.update(&z);
    let mut zy = x.clone();
    zy.update(&z);
    zy.update(&y);

    assert!(same_set(&yz.prop_list, &zy.prop_list));
    assert_eq!(yz.prop_list.len(), 5);
    assert_eq!(zy.prop_list.len(), 5);
    yz.prop_list.clear();
    zy.prop_list.clear();
    assert_eq!(yz, zy);
    assert_eq!(yz.name, "eth9");
    assert_eq!(yz.mtu, Some(9000));
    assert_eq!(yz.state, InterfaceState::Down);
}

#[test]
fn interface_type_knows_what_is_supported() {
    assert!(InterfaceType::Bond.is_supported());
    assert!(InterfaceType::Xfrm.is_supported());
    assert!(!InterfaceType::Tun.is_supported());
    assert!(!InterfaceType::Unknown.is_supported());
    assert!(!InterfaceType::Other("team".to_string()).is_supported());
    assert!(InterfaceType::OvsBridge.is_userspace());
    assert!(InterfaceType::Ipsec.is_userspace());
    assert!(InterfaceType::Other("x".to_string()).is_userspace());
    assert!(!InterfaceType::Ethernet.is_userspace());
    assert!(InterfaceType::Other("a".to_string()).same(&InterfaceType::Other("a".to_string())));
    assert!(!InterfaceType::Other("a".to_string()).same(&InterfaceType::Other("b".to_string())));
    assert!(!InterfaceType::Vlan.same(&InterfaceType::Vxlan));
    assert!(InterfaceType::Unknown.is_unknown());
    assert_eq!(InterfaceType::LinuxBridge.to_string(), "linux-bridge");
    assert_eq!(InterfaceType::MacVtap.to_string(), "mac-vtap");
    assert_eq!(InterfaceType::OvsInterface.to_string(), "ovs-interface");
    assert_eq!(InterfaceType::Unknown.to_string(), "unknown");
    assert_eq!(InterfaceType::Other("team".to_string()).to_string(), "team");
}

#[test]
fn merged_form_is_the_current_one_overlaid_with_the_desired_one() {
    let mut current = named("eth1", vec!["name", "mtu"]);
    current.mtu = Some(1500);
    let mut desired = named("eth1", vec!["state"]);
    desired.state = InterfaceState::Absent;
    desired.mtu = Some(1);
    let merged = merge(&current, &desired);
    assert_eq!(merged.mtu, Some(1500));
    assert_eq!(merged.state, InterfaceState::Absent);
    assert_eq!(merged.prop_list, vec!["name", "mtu", "state"]);
    assert_eq!(current.state, InterfaceState::Up);
}
