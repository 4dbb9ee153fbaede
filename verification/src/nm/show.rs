//! The state of a host as the profile backend reports it, in the form of
//! this library.

use vstd::prelude::*;
use crate::base_iface::{
    BaseInterface, BaseInterfaceView, DispatchConfig, InterfaceIdentifier, InterfaceState,
    InterfaceType, InterfaceTypeView, empty_base, type_supported,
};
use crate::iface::{
    BondConfig, BondInterface, BondOptions, Interface, InterfaceKind, Interfaces, MacSecConfig,
    MacSecInterface, iface_base, iface_kind, iface_plain, iface_userspace, kind_of_type, put_iface,
    same_but_base,
};
use crate::nm::connection::{
    NM_ACTIVATION_STATE_FLAG_EXTERNAL, NmActiveConnection, NmConnection, NmDevice, NmDeviceState,
    NmLldpNeighbor, conn_iface_name, conn_iface_type, conn_id, conn_mac, conn_uuid,
};
use crate::nm::ieee8021x::{ieee8021x_of, nm_802_1x_to_nmstate};
use crate::nm::iface_type::{NmIfaceType, NmIfaceTypeView, OVS_PORT_NAME, index_type, nmstate_type};
use crate::nm::query::{
    balance_slb_of, description_of, get_bond_balance_slb, get_description, get_lldp, ip4_of,
    ip6_of, is_lldp_enabled, lldp_enabled, lldp_of, lldp_off, nm_dev_iface_type_to_nmstate,
    nm_ip_setting_to_nmstate4, nm_ip_setting_to_nmstate6, query_nmstate_wait_ip, wait_ip_of,
};
use crate::base_iface::LldpConfig;
use crate::text::{Text, clone_opt_string, str_eq, string_eq};

verus! {

/// The name of the interface that libreswan keeps for itself.
pub const LIBRESWAN_VTI_NAME: &'static str = "ip_vti0";

/// The name of the loopback interface.
pub const LOOPBACK_NAME: &'static str = "lo";

/// What a reference may hold, itself.
pub open spec fn held<A>(o: Option<&A>) -> Option<A> {
    match o {
        Some(a) => Some(*a),
        None => None,
    }
}

/// What an optional list holds.
pub open spec fn seen<A>(o: Option<Vec<A>>) -> Option<Seq<A>> {
    match o {
        Some(v) => Some(v@),
        None => None,
    }
}

/// By what a profile finds its interface, and the MAC address it is bound
/// to: the MAC address where the profile names one that is not empty, else
/// the name.
pub open spec fn identifier_and_mac(c: NmConnection) -> (Option<InterfaceIdentifier>, Option<Text>) {
    match conn_mac(c) {
        Some(mac) => if mac.len() > 0 {
            (Some(InterfaceIdentifier::MacAddress), Some(mac))
        } else {
            (Some(InterfaceIdentifier::Name), None)
        },
        None => (Some(InterfaceIdentifier::Name), None),
    }
}

/// By what a profile finds its interface, and the MAC address it is bound
/// to.
pub fn get_identifier_and_mac(nm_conn: &NmConnection) -> (r: (
    Option<InterfaceIdentifier>,
    Option<String>,
))
    ensures
        (r.0, r.1.deep_view()) == identifier_and_mac(*nm_conn),
{
    if let Some(nm_set) = &nm_conn.wired {
        if let Some(mac) = &nm_set.mac_address {
            if !mac.as_str().is_empty() {
                return (Some(InterfaceIdentifier::MacAddress), Some(mac.clone()));
            }
        }
    }
    (Some(InterfaceIdentifier::Name), None)
}

/// The name of a profile: that of the saved profile where it has the same
/// UUID and a general setting, else that of the profile itself.
pub open spec fn connection_name(c: NmConnection, saved: Option<NmConnection>) -> Option<Text> {
    if saved is Some && conn_uuid(saved.unwrap()) == conn_uuid(c) && saved.unwrap().connection
        is Some {
        conn_id(saved.unwrap())
    } else {
        conn_id(c)
    }
}

/// The name of a profile. An applied profile keeps an old name when it is
/// applied again, so the saved profile of the same UUID is asked first.
pub fn get_connection_name(nm_conn: &NmConnection, saved_nm_conn: Option<&NmConnection>) -> (name:
    Option<String>)
    ensures
        name.deep_view() == connection_name(*nm_conn, held(saved_nm_conn)),
{
    if let Some(saved) = saved_nm_conn {
        let same_uuid = match saved.uuid() {
            Some(a) => match nm_conn.uuid() {
                Some(b) => string_eq(a, b),
                None => false,
            },
            None => nm_conn.uuid().is_none(),
        };
        if same_uuid {
            if let Some(nm_set) = &saved.connection {
                return clone_opt_string(&nm_set.id);
            }
        }
    }
    if let Some(nm_set) = &nm_conn.connection {
        return clone_opt_string(&nm_set.id);
    }
    None
}

/// Whether a profile is indexed under a name and a kind: it is for an
/// interface of that name, and of that kind once a veth counts as ethernet.
pub open spec fn in_bucket(c: NmConnection, name: Text, t: NmIfaceTypeView) -> bool {
    conn_iface_name(c) == Some(name) && conn_iface_type(c) is Some && index_type(
        conn_iface_type(c).unwrap(),
    ) == t
}

/// Whether `k` is the position of the first profile indexed under a name and
/// a kind.
pub open spec fn is_first_conn(conns: Seq<NmConnection>, k: int, name: Text, t: NmIfaceTypeView) -> bool {
    &&& 0 <= k < conns.len()
    &&& in_bucket(conns[k], name, t)
    &&& forall|j: int| 0 <= j < k ==> !in_bucket(#[trigger] conns[j], name, t)
}

/// The position of the first profile for an interface of the given name and
/// of the given kind, a veth counting as ethernet.
pub fn first_nm_conn_index(nm_conns: &Vec<NmConnection>, name: &str, nm_iface_type: &NmIfaceType) -> (r:
    Option<usize>)
    ensures
        match r {
            Some(k) => is_first_conn(nm_conns@, k as int, name@, index_type(nm_iface_type@)),
            None => forall|j: int|
                0 <= j < nm_conns@.len() ==> !in_bucket(
                    #[trigger] nm_conns@[j],
                    name@,
                    index_type(nm_iface_type@),
                ),
        },
{
    let mut k: usize = 0;
    while k < nm_conns.len()
        invariant
            k <= nm_conns.len(),
            forall|j: int|
                0 <= j < k ==> !in_bucket(
                    #[trigger] nm_conns@[j],
                    name@,
                    index_type(nm_iface_type@),
                ),
        decreases nm_conns.len() - k,
    {
        let c = &nm_conns[k];
        let named = match c.iface_name() {
            Some(n) => str_eq(n.as_str(), name),
            None => false,
        };
        let typed = match c.iface_type() {
            Some(t) => t.same_index(nm_iface_type),
            None => false,
        };
        if named && typed {
            return Some(k);
        }
        k += 1;
    }
    None
}

/// The first profile for an interface of the given name and of the given
/// kind, a veth counting as ethernet.
pub fn get_first_nm_conn<'a>(
    nm_conns: &'a Vec<NmConnection>,
    name: &str,
    nm_iface_type: &NmIfaceType,
) -> (r: Option<&'a NmConnection>)
    ensures
        match r {
            Some(c) => exists|k: int|
                #[trigger] is_first_conn(nm_conns@, k, name@, index_type(nm_iface_type@)) && *c
                    == nm_conns@[k],
            None => forall|j: int|
                0 <= j < nm_conns@.len() ==> !in_bucket(
                    #[trigger] nm_conns@[j],
                    name@,
                    index_type(nm_iface_type@),
                ),
        },
{
    match first_nm_conn_index(nm_conns, name, nm_iface_type) {
        Some(k) => Some(&nm_conns[k]),
        None => None,
    }
}

/// Whether an activation is indexed under a name and a kind.
pub open spec fn ac_in_bucket(ac: NmActiveConnection, name: Text, t: NmIfaceTypeView) -> bool {
    ac.iface_name@ == name && index_type(ac.iface_type@) == t
}

/// Whether `k` is the position of the last activation indexed under a name
/// and a kind.
pub open spec fn is_last_ac(acs: Seq<NmActiveConnection>, k: int, name: Text, t: NmIfaceTypeView) -> bool {
    &&& 0 <= k < acs.len()
    &&& ac_in_bucket(acs[k], name, t)
    &&& forall|j: int| k < j < acs.len() ==> !ac_in_bucket(#[trigger] acs[j], name, t)
}

/// The position of the activation on an interface of the given name and of
/// the given kind, a veth counting as ethernet; the last one where there are
/// several.
pub fn nm_ac_index(nm_acs: &Vec<NmActiveConnection>, name: &str, nm_iface_type: &NmIfaceType) -> (r:
    Option<usize>)
    ensures
        match r {
            Some(k) => is_last_ac(nm_acs@, k as int, name@, index_type(nm_iface_type@)),
            None => forall|j: int|
                0 <= j < nm_acs@.len() ==> !ac_in_bucket(
                    #[trigger] nm_acs@[j],
                    name@,
                    index_type(nm_iface_type@),
                ),
        },
{
    let mut k: usize = nm_acs.len();
    while k > 0
        invariant
            k <= nm_acs.len(),
            forall|j: int|
                k <= j < nm_acs@.len() ==> !ac_in_bucket(
                    #[trigger] nm_acs@[j],
                    name@,
                    index_type(nm_iface_type@),
                ),
        decreases k,
    {
        k -= 1;
        let ac = &nm_acs[k];
        if str_eq(ac.iface_name.as_str(), name) && ac.iface_type.same_index(nm_iface_type) {
            return Some(k);
        }
    }
    None
}

/// The activation on an interface of the given name and of the given kind, a
/// veth counting as ethernet; the last one where there are several.
pub fn get_nm_ac<'a>(
    nm_acs: &'a Vec<NmActiveConnection>,
    name: &str,
    nm_iface_type: &NmIfaceType,
) -> (r: Option<&'a NmActiveConnection>)
    ensures
        match r {
            Some(ac) => exists|k: int|
                #[trigger] is_last_ac(nm_acs@, k, name@, index_type(nm_iface_type@)) && *ac
                    == nm_acs@[k],
            None => forall|j: int|
                0 <= j < nm_acs@.len() ==> !ac_in_bucket(
                    #[trigger] nm_acs@[j],
                    name@,
                    index_type(nm_iface_type@),
                ),
        },
{
    match nm_ac_index(nm_acs, name, nm_iface_type) {
        Some(k) => Some(&nm_acs[k]),
        None => None,
    }
}

/// The administrative state of the interface of a device.
pub open spec fn dev_state(s: NmDeviceState) -> InterfaceState {
    match s {
        NmDeviceState::Unmanaged => InterfaceState::Ignore,
        NmDeviceState::Disconnected => InterfaceState::Down,
        _ => InterfaceState::Up,
    }
}

/// Whether a device stands for no interface: it has no name, or it is
/// unmanaged and does not exist in the kernel, or it is a port of Open
/// vSwitch.
pub open spec fn dev_skipped(d: NmDevice) -> bool {
    d.name@.len() == 0 || (d.state == NmDeviceState::Unmanaged && !d.real) || nmstate_type(
        d.iface_type@,
    ) == InterfaceTypeView::Other(OVS_PORT_NAME@)
}

/// The variant in which the interface of a device is held: that of its kind
/// where this library holds such interfaces; else the loopback for the
/// device named `lo`, and the unknown interface for any other.
pub open spec fn dev_kind(d: NmDevice) -> InterfaceKind {
    match kind_of_type(nmstate_type(d.iface_type@)) {
        Some(k) => k,
        None => if d.name@ == LOOPBACK_NAME@ {
            InterfaceKind::Loopback
        } else {
            InterfaceKind::Unknown
        },
    }
}

/// The base record of the interface of a device. An interface of a kind
/// that this library does not hold is ignored; its kind is unknown where the
/// device has a MAC address.
pub open spec fn dev_base(d: NmDevice) -> BaseInterfaceView {
    let t = nmstate_type(d.iface_type@);
    if kind_of_type(t) is Some {
        BaseInterfaceView { name: d.name@, state: dev_state(d.state), iface_type: t, ..empty_base() }
    } else if d.name@ == LOOPBACK_NAME@ {
        BaseInterfaceView {
            name: d.name@,
            state: InterfaceState::Ignore,
            iface_type: InterfaceTypeView::Loopback,
            ..empty_base()
        }
    } else {
        BaseInterfaceView {
            name: d.name@,
            state: InterfaceState::Ignore,
            iface_type: if d.mac_address@.len() > 0 {
                InterfaceTypeView::Unknown
            } else {
                t
            },
            ..empty_base()
        }
    }
}

/// Whether `r` is the interface that a device without profile stands for.
pub open spec fn is_dev_iface(d: NmDevice, r: Option<Interface>) -> bool {
    match r {
        Some(i) => {
            &&& !dev_skipped(d)
            &&& iface_kind(i) == dev_kind(d)
            &&& iface_base(i)@ == dev_base(d)
            &&& iface_base(i).prop_list@.len() == 0
            &&& iface_plain(i)
        },
        None => dev_skipped(d),
    }
}

/// The interface that a device without profile stands for.
pub fn nm_dev_to_nm_iface(nm_dev: &NmDevice) -> (r: Option<Interface>)
    ensures
        is_dev_iface(*nm_dev, r),
{
    let mut base_iface = BaseInterface::new();
    if nm_dev.name.as_str().is_empty() {
        return None;
    } else {
        base_iface.name = nm_dev.name.clone();
    }
    match nm_dev.state {
        NmDeviceState::Unmanaged => {
            if !nm_dev.real {
                return None;
            } else {
                base_iface.state = InterfaceState::Ignore;
            }
        },
        NmDeviceState::Disconnected => {
            base_iface.state = InterfaceState::Down;
        },
        _ => {
            base_iface.state = InterfaceState::Up;
        },
    }
    base_iface.iface_type = nm_dev_iface_type_to_nmstate(nm_dev);
    let known = match &base_iface.iface_type {
        InterfaceType::Bond | InterfaceType::LinuxBridge | InterfaceType::Dummy
        | InterfaceType::Ethernet | InterfaceType::Hsr | InterfaceType::Loopback
        | InterfaceType::MacVlan | InterfaceType::MacVtap | InterfaceType::OvsBridge
        | InterfaceType::OvsInterface | InterfaceType::Vlan | InterfaceType::Vrf
        | InterfaceType::Vxlan | InterfaceType::InfiniBand | InterfaceType::MacSec
        | InterfaceType::IpVlan => true,
        _ => false,
    };
    if known {
        return Interface::from_base(base_iface);
    }
    let ovs_port = match &base_iface.iface_type {
        InterfaceType::Other(s) => str_eq(s.as_str(), OVS_PORT_NAME),
        _ => false,
    };
    if ovs_port {
        return None;
    }
    // Before version 1.42 of the backend the loopback has a generic kind.
    base_iface.state = InterfaceState::Ignore;
    if str_eq(base_iface.name.as_str(), LOOPBACK_NAME) {
        base_iface.iface_type = InterfaceType::Loopback;
        Some(Interface::Loopback(Box::new(crate::iface::LoopbackInterface { base: base_iface })))
    } else {
        // With a MAC address it is an interface of the kernel, without one
        // an interface of user space.
        if !nm_dev.mac_address.as_str().is_empty() {
            base_iface.iface_type = InterfaceType::Unknown;
        }
        Some(Interface::Unknown(Box::new(crate::iface::UnknownInterface { base: base_iface })))
    }
}

/// The name of the interface of a profile: a VPN profile goes by its own
/// name.
pub open spec fn conn_name(c: NmConnection) -> Option<Text> {
    match conn_iface_name(c) {
        Some(n) => Some(n),
        None => if conn_iface_type(c) == Some(NmIfaceTypeView::Vpn) {
            conn_id(c)
        } else {
            None
        },
    }
}

/// The profile name shown for an interface: none where it is the name of the
/// interface.
pub open spec fn shown_profile_name(c: NmConnection, saved: Option<NmConnection>, name: Text) -> Option<
    Text,
> {
    let p = connection_name(c, saved);
    if p == Some(name) {
        None
    } else {
        p
    }
}

/// The base record of the interface of a profile; none where the profile is
/// for no interface. Without device the kind stays unknown. The 802.1X
/// settings are those of the saved profile.
pub open spec fn conn_base(
    dev: Option<NmDevice>,
    c: NmConnection,
    saved: Option<NmConnection>,
    lldp: Option<Seq<NmLldpNeighbor>>,
) -> Option<BaseInterfaceView> {
    match conn_name(c) {
        None => None,
        Some(name) => Some(
            BaseInterfaceView {
                name,
                state: InterfaceState::Up,
                iface_type: match dev {
                    Some(d) => nmstate_type(d.iface_type@),
                    None => InterfaceTypeView::Unknown,
                },
                ipv4: match c.ipv4 {
                    Some(s) => Some(ip4_of(s)),
                    None => None,
                },
                ipv6: match c.ipv6 {
                    Some(s) => Some(ip6_of(s)),
                    None => None,
                },
                wait_ip: wait_ip_of(c.ipv4, c.ipv6),
                description: description_of(c),
                identifier: identifier_and_mac(c).0,
                mac_address: identifier_and_mac(c).1,
                profile_name: shown_profile_name(c, saved, name),
                lldp: Some(
                    match lldp {
                        Some(n) => lldp_of(n),
                        None => lldp_off(),
                    },
                ),
                ieee8021x: match saved {
                    Some(s) => match s.ieee8021x {
                        Some(x) => Some(ieee8021x_of(x)),
                        None => None,
                    },
                    None => None,
                },
                ..empty_base()
            },
        ),
    }
}

fn clear_if_same(profile_name: Option<String>, name: &String) -> (r: Option<String>)
    ensures
        r.deep_view() == (if profile_name.deep_view() == Some(name@) {
            None
        } else {
            profile_name.deep_view()
        }),
{
    let same = match &profile_name {
        Some(p) => string_eq(p, name),
        None => false,
    };
    if same {
        None
    } else {
        profile_name
    }
}

/// The base record of the interface of a profile. Without device the kind
/// is not set.
pub fn nm_conn_to_base_iface(
    nm_dev: Option<&NmDevice>,
    nm_conn: &NmConnection,
    nm_saved_conn: Option<&NmConnection>,
    lldp_neighbors: Option<Vec<NmLldpNeighbor>>,
) -> (r: Option<BaseInterface>)
    ensures
        r.deep_view() == conn_base(
            held(nm_dev),
            *nm_conn,
            held(nm_saved_conn),
            seen(lldp_neighbors),
        ),
        r is Some ==> r.unwrap().prop_list@.len() == 0,
{
    let iface_name = match nm_conn.iface_name() {
        Some(n) => Some(n),
        None => {
            let vpn = match nm_conn.iface_type() {
                Some(t) => t.is_vpn(),
                None => false,
            };
            if vpn {
                nm_conn.id()
            } else {
                None
            }
        },
    };
    let ghost neighbors = seen(lldp_neighbors);
    if let Some(iface_name) = iface_name {
        let ipv4 = match &nm_conn.ipv4 {
            Some(s) => Some(nm_ip_setting_to_nmstate4(s)),
            None => None,
        };
        let ipv6 = match &nm_conn.ipv6 {
            Some(s) => Some(nm_ip_setting_to_nmstate6(s)),
            None => None,
        };
        let mut base_iface = BaseInterface::new();
        base_iface.name = iface_name.clone();
        base_iface.state = InterfaceState::Up;
        base_iface.iface_type = match nm_dev {
            Some(d) => nm_dev_iface_type_to_nmstate(d),
            None => InterfaceType::Unknown,
        };
        base_iface.ipv4 = ipv4;
        base_iface.ipv6 = ipv6;
        base_iface.wait_ip = query_nmstate_wait_ip(nm_conn.ipv4.as_ref(), nm_conn.ipv6.as_ref());
        base_iface.description = get_description(nm_conn);
        let (identifier, mac_address) = get_identifier_and_mac(nm_conn);
        base_iface.identifier = identifier;
        base_iface.mac_address = mac_address;
        base_iface.profile_name = clear_if_same(
            get_connection_name(nm_conn, nm_saved_conn),
            &base_iface.name,
        );
        base_iface.lldp = Some(
            match lldp_neighbors {
                Some(n) => get_lldp(n),
                None => LldpConfig { enabled: false, neighbors: Vec::new() },
            },
        );
        if let Some(saved) = nm_saved_conn {
            // The password of 802.1X is in the saved profile only.
            base_iface.ieee8021x = match &saved.ieee8021x {
                Some(x) => Some(nm_802_1x_to_nmstate(x)),
                None => None,
            };
        }
        proof {
            let want = conn_base(held(nm_dev), *nm_conn, held(nm_saved_conn), neighbors).unwrap();
            assert(base_iface@.lldp.unwrap().neighbors =~= want.lldp.unwrap().neighbors);
            assert(base_iface@ =~= want);
        }
        return Some(base_iface);
    }
    None
}

/// The variant in which the interface of a profile is held; none for the
/// kinds that are shown only from their devices.
pub open spec fn conn_kind(t: InterfaceTypeView) -> Option<InterfaceKind> {
    if t == InterfaceTypeView::InfiniBand {
        None
    } else {
        kind_of_type(t)
    }
}

/// What is particular to the kind of the interface of a profile: a bond has
/// its options, with what the profile says of source load balancing; a
/// MACsec interface has the key name of its profile and the key of the
/// saved profile; any other has nothing.
pub open spec fn conn_payload(i: Interface, c: NmConnection, saved: Option<NmConnection>) -> bool {
    match i {
        Interface::Bond(x) => {
            &&& x.bond matches Some(b)
            &&& b.options == Some(BondOptions { balance_slb: balance_slb_of(c), miimon: None })
            &&& b.port is None
            &&& b.ports_config is None
        },
        Interface::MacSec(x) => match c.macsec {
            Some(s) => {
                &&& x.macsec matches Some(m)
                &&& m.mka_ckn.deep_view() == s.mka_ckn.deep_view()
                &&& m.mka_cak.deep_view() == saved_cak(saved)
            },
            None => x.macsec is None,
        },
        _ => iface_plain(i),
    }
}

/// The MACsec key of the saved profile.
pub open spec fn saved_cak(saved: Option<NmConnection>) -> Option<Text> {
    match saved {
        Some(s) => match s.macsec {
            Some(m) => m.mka_cak.deep_view(),
            None => None,
        },
        None => None,
    }
}

/// Whether `r` is the interface of a profile on a device.
pub open spec fn is_conn_iface(
    dev: NmDevice,
    c: NmConnection,
    saved: Option<NmConnection>,
    lldp: Option<Seq<NmLldpNeighbor>>,
    r: Option<Interface>,
) -> bool {
    match conn_base(Some(dev), c, saved, lldp) {
        None => r is None,
        Some(b) => match conn_kind(b.iface_type) {
            None => r is None,
            Some(k) => {
                &&& r matches Some(i)
                &&& iface_kind(i) == k
                &&& iface_base(i)@ == b
                &&& iface_base(i).prop_list@.len() == 0
                &&& conn_payload(i, c, saved)
            },
        },
    }
}

/// The interface of a profile on a device. The applied profile does not
/// hold everything, so the saved profile of the activation is asked too.
pub fn iface_get(
    nm_dev: &NmDevice,
    nm_conn: &NmConnection,
    nm_saved_conn: Option<&NmConnection>,
    lldp_neighbors: Option<Vec<NmLldpNeighbor>>,
) -> (r: Option<Interface>)
    ensures
        is_conn_iface(
            *nm_dev,
            *nm_conn,
            held(nm_saved_conn),
            seen(lldp_neighbors),
            r,
        ),
{
    let base_iface = match nm_conn_to_base_iface(
        Some(nm_dev),
        nm_conn,
        nm_saved_conn,
        lldp_neighbors,
    ) {
        Some(b) => b,
        None => {
            return None;
        },
    };
    match &base_iface.iface_type {
        InterfaceType::InfiniBand => {
            return None;
        },
        InterfaceType::Bond => {
            let bond_config = BondConfig {
                options: Some(
                    BondOptions { balance_slb: get_bond_balance_slb(nm_conn), miimon: None },
                ),
                port: None,
                ports_config: None,
            };
            Some(
                Interface::Bond(Box::new(BondInterface { base: base_iface, bond: Some(bond_config) })),
            )
        },
        InterfaceType::MacSec => {
            let macsec = match &nm_conn.macsec {
                Some(macsec_set) => {
                    let mka_cak = match nm_saved_conn {
                        Some(saved) => match &saved.macsec {
                            Some(m) => clone_opt_string(&m.mka_cak),
                            None => None,
                        },
                        None => None,
                    };
                    Some(MacSecConfig { mka_cak, mka_ckn: clone_opt_string(&macsec_set.mka_ckn) })
                },
                None => None,
            };
            Some(Interface::MacSec(Box::new(MacSecInterface { base: base_iface, macsec })))
        },
        _ => Interface::from_base(base_iface),
    }
}

/// Whether a device is the tunnel half of an interface of Open vSwitch that
/// is reported as a device of its own.
pub open spec fn tun_of_ovs(devs: Seq<NmDevice>, d: NmDevice) -> bool {
    d.iface_type@ == NmIfaceTypeView::Tun && exists|k: int|
        0 <= k < devs.len() && (#[trigger] devs[k]).name@ == d.name@ && devs[k].iface_type@
            == NmIfaceTypeView::OvsIface
}

/// Whether a device is passed over: the tunnel half of an interface of Open
/// vSwitch, and the interface that libreswan keeps for itself.
pub open spec fn dev_passed(devs: Seq<NmDevice>, d: NmDevice) -> bool {
    tun_of_ovs(devs, d) || d.name@ == LIBRESWAN_VTI_NAME@
}

/// Whether the activation on a device is of an interface that the backend
/// did not configure itself.
pub open spec fn external(acs: Seq<NmActiveConnection>, d: NmDevice) -> bool {
    exists|k: int|
        #[trigger] is_last_ac(acs, k, d.name@, index_type(d.iface_type@)) && acs[k].state_flags
            & NM_ACTIVATION_STATE_FLAG_EXTERNAL > 0
}

/// Whether a device is shown without asking a profile: it is unmanaged or
/// disconnected, or the backend did not configure it.
pub open spec fn from_device_alone(acs: Seq<NmActiveConnection>, d: NmDevice) -> bool {
    d.state == NmDeviceState::Unmanaged || d.state == NmDeviceState::Disconnected || external(
        acs,
        d,
    )
}

/// Whether `k` is the position of the last saved profile with a UUID.
pub open spec fn is_last_saved(saved: Seq<NmConnection>, k: int, uuid: Text) -> bool {
    &&& 0 <= k < saved.len()
    &&& conn_uuid(saved[k]) == Some(uuid)
    &&& forall|j: int| k < j < saved.len() ==> conn_uuid(#[trigger] saved[j]) != Some(uuid)
}

/// Whether `s` is the saved profile of the activation on a device: the last
/// saved profile with the UUID of the activation; none where the device has
/// no activation or no saved profile has its UUID.
pub open spec fn is_saved_of(
    saved: Seq<NmConnection>,
    acs: Seq<NmActiveConnection>,
    d: NmDevice,
    s: Option<NmConnection>,
) -> bool {
    match s {
        Some(c) => exists|a: int, k: int|
            #[trigger] is_last_ac(acs, a, d.name@, index_type(d.iface_type@))
                && #[trigger] is_last_saved(saved, k, acs[a].uuid@) && saved[k] == c,
        None => (forall|j: int|
            0 <= j < acs.len() ==> !ac_in_bucket(
                #[trigger] acs[j],
                d.name@,
                index_type(d.iface_type@),
            )) || (exists|a: int|
            #[trigger] is_last_ac(acs, a, d.name@, index_type(d.iface_type@)) && forall|j: int|
                0 <= j < saved.len() ==> conn_uuid(#[trigger] saved[j]) != Some(acs[a].uuid@)),
    }
}

/// The neighbours shown for the interface of a profile: none where the
/// profile does not switch LLDP on; an empty list where only the running
/// configuration is asked for; else those that the backend reported.
pub open spec fn lldp_shown(
    running_config_only: bool,
    c: NmConnection,
    reported: Option<Seq<NmLldpNeighbor>>,
) -> Option<Seq<NmLldpNeighbor>> {
    if lldp_enabled(c) {
        if running_config_only {
            Some(Seq::empty())
        } else {
            match reported {
                Some(n) => Some(n),
                None => Some(Seq::empty()),
            }
        }
    } else {
        None
    }
}

/// Whether `after` is `before` with the state `Ignore` where its kind is
/// one that this library does not manage.
pub open spec fn ignored_if_unsupported(before: Option<Interface>, after: Option<Interface>) -> bool {
    match before {
        None => after is None,
        Some(i) => {
            &&& after matches Some(j)
            &&& same_but_base(i, j)
            &&& iface_base(j) == (BaseInterface {
                state: if type_supported(iface_base(i).iface_type@) {
                    iface_base(i).state
                } else {
                    InterfaceState::Ignore
                },
                ..iface_base(i)
            })
        },
    }
}

/// Whether `out` is what a device contributes to the state of the host.
pub open spec fn retrieved(
    running_config_only: bool,
    conns: Seq<NmConnection>,
    devs: Seq<NmDevice>,
    saved: Seq<NmConnection>,
    acs: Seq<NmActiveConnection>,
    reported: Option<Seq<NmLldpNeighbor>>,
    d: NmDevice,
    out: Option<Interface>,
) -> bool {
    if dev_passed(devs, d) {
        out is None
    } else if from_device_alone(acs, d) {
        exists|raw: Option<Interface>| #[trigger]
            is_dev_iface(d, raw) && ignored_if_unsupported(raw, out)
    } else {
        ||| out is None && forall|j: int|
            0 <= j < conns.len() ==> !in_bucket(
                #[trigger] conns[j],
                d.name@,
                index_type(d.iface_type@),
            )
        ||| exists|k: int, s: Option<NmConnection>, raw: Option<Interface>|
            {
                &&& #[trigger] is_first_conn(conns, k, d.name@, index_type(d.iface_type@))
                &&& is_saved_of(saved, acs, d, s)
                &&& #[trigger] is_conn_iface(
                    d,
                    conns[k],
                    s,
                    lldp_shown(running_config_only, conns[k], reported),
                    raw,
                )
                &&& ignored_if_unsupported(raw, out)
            }
    }
}

/// The state of a host after the interfaces of `outs` were added to it, in
/// their order: the interfaces of the kernel and those of user space.
pub open spec fn push_all(
    kernel: Seq<Interface>,
    user: Seq<Interface>,
    outs: Seq<Option<Interface>>,
) -> (Seq<Interface>, Seq<Interface>)
    decreases outs.len(),
{
    if outs.len() == 0 {
        (kernel, user)
    } else {
        let (k, u) = push_all(kernel, user, outs.drop_last());
        match outs.last() {
            None => (k, u),
            Some(i) => if iface_userspace(i) {
                (k, put_iface(u, i))
            } else {
                (put_iface(k, i), u)
            },
        }
    }
}

fn ignore_unsupported(iface: Option<Interface>) -> (r: Option<Interface>)
    ensures
        ignored_if_unsupported(iface, r),
{
    match iface {
        Some(i) => {
            if i.iface_type().is_supported() {
                let state = i.base_iface().state;
                Some(i.with_state(state))
            } else {
                Some(i.with_state(InterfaceState::Ignore))
            }
        },
        None => None,
    }
}

fn is_tun_of_ovs(nm_devs: &Vec<NmDevice>, nm_dev: &NmDevice) -> (b: bool)
    ensures
        b == tun_of_ovs(nm_devs@, *nm_dev),
{
    if !nm_dev.iface_type.same(&NmIfaceType::Tun) {
        return false;
    }
    let mut k: usize = 0;
    while k < nm_devs.len()
        invariant
            k <= nm_devs.len(),
            nm_dev.iface_type@ == NmIfaceTypeView::Tun,
            forall|j: int|
                0 <= j < k ==> !((#[trigger] nm_devs@[j]).name@ == nm_dev.name@
                    && nm_devs@[j].iface_type@ == NmIfaceTypeView::OvsIface),
        decreases nm_devs.len() - k,
    {
        let n = &nm_devs[k];
        if string_eq(&n.name, &nm_dev.name) && n.iface_type.same(&NmIfaceType::OvsIface) {
            return true;
        }
        k += 1;
    }
    false
}

fn last_saved_index(nm_saved_conns: &Vec<NmConnection>, uuid: &String) -> (r: Option<usize>)
    ensures
        match r {
            Some(k) => is_last_saved(nm_saved_conns@, k as int, uuid@),
            None => forall|j: int|
                0 <= j < nm_saved_conns@.len() ==> conn_uuid(#[trigger] nm_saved_conns@[j])
                    != Some(uuid@),
        },
{
    let mut k: usize = nm_saved_conns.len();
    while k > 0
        invariant
            k <= nm_saved_conns.len(),
            forall|j: int|
                k <= j < nm_saved_conns@.len() ==> conn_uuid(#[trigger] nm_saved_conns@[j])
                    != Some(uuid@),
        decreases k,
    {
        k -= 1;
        let same = match nm_saved_conns[k].uuid() {
            Some(u) => string_eq(u, uuid),
            None => false,
        };
        if same {
            return Some(k);
        }
    }
    None
}

/// Whether the neighbours of a device are to be asked of the backend: the
/// device is shown from a profile that switches LLDP on, and more than the
/// running configuration is asked for.
pub fn lldp_query_needed(
    running_config_only: bool,
    nm_conns: &Vec<NmConnection>,
    nm_devs: &Vec<NmDevice>,
    nm_acs: &Vec<NmActiveConnection>,
    nm_dev: &NmDevice,
) -> (needed: bool)
    ensures
        needed == (!running_config_only && !dev_passed(nm_devs@, *nm_dev) && !from_device_alone(
            nm_acs@,
            *nm_dev,
        ) && exists|k: int|
            #[trigger] is_first_conn(
                nm_conns@,
                k,
                nm_dev.name@,
                index_type(nm_dev.iface_type@),
            ) && lldp_enabled(nm_conns@[k])),
{
    if running_config_only || is_tun_of_ovs(nm_devs, nm_dev) || str_eq(
        nm_dev.name.as_str(),
        LIBRESWAN_VTI_NAME,
    ) {
        return false;
    }
    if nm_dev.state == NmDeviceState::Unmanaged || nm_dev.state == NmDeviceState::Disconnected {
        return false;
    }
    if let Some(a) = nm_ac_index(nm_acs, nm_dev.name.as_str(), &nm_dev.iface_type) {
        if (nm_acs[a].state_flags & NM_ACTIVATION_STATE_FLAG_EXTERNAL) > 0 {
            return false;
        }
        proof {
            lemma_last_ac_unique(nm_acs@, a as int, nm_dev.name@, index_type(nm_dev.iface_type@));
        }
    }
    match first_nm_conn_index(nm_conns, nm_dev.name.as_str(), &nm_dev.iface_type) {
        Some(k) => {
            proof {
                lemma_first_conn_unique(
                    nm_conns@,
                    k as int,
                    nm_dev.name@,
                    index_type(nm_dev.iface_type@),
                );
            }
            is_lldp_enabled(&nm_conns[k])
        },
        None => false,
    }
}

/// There is one last activation on an interface at most.
pub proof fn lemma_last_ac_unique(acs: Seq<NmActiveConnection>, k: int, name: Text, t: NmIfaceTypeView)
    requires
        is_last_ac(acs, k, name, t),
    ensures
        forall|j: int| #[trigger] is_last_ac(acs, j, name, t) ==> j == k,
{
}

/// There is one first profile for an interface at most.
pub proof fn lemma_first_conn_unique(conns: Seq<NmConnection>, k: int, name: Text, t: NmIfaceTypeView)
    requires
        is_first_conn(conns, k, name, t),
    ensures
        forall|j: int| #[trigger] is_first_conn(conns, j, name, t) ==> j == k,
{
}

/// What one device contributes to the state of the host. A device that is
/// unmanaged, disconnected or not configured by the backend is shown as it
/// is. Any other is shown from the first applied profile for its interface,
/// with the saved profile of its activation; without such a profile it is
/// not shown. An interface of a kind that this library does not manage is
/// ignored.
pub fn retrieve_device(
    running_config_only: bool,
    nm_conns: &Vec<NmConnection>,
    nm_devs: &Vec<NmDevice>,
    nm_saved_conns: &Vec<NmConnection>,
    nm_acs: &Vec<NmActiveConnection>,
    reported: Option<Vec<NmLldpNeighbor>>,
    nm_dev: &NmDevice,
) -> (out: Option<Interface>)
    ensures
        retrieved(
            running_config_only,
            nm_conns@,
            nm_devs@,
            nm_saved_conns@,
            nm_acs@,
            seen(reported),
            *nm_dev,
            out,
        ),
{
    if is_tun_of_ovs(nm_devs, nm_dev) {
        return None;
    }
    if str_eq(nm_dev.name.as_str(), LIBRESWAN_VTI_NAME) {
        return None;
    }
    let ghost name = nm_dev.name@;
    let ghost t = index_type(nm_dev.iface_type@);
    if nm_dev.state == NmDeviceState::Unmanaged || nm_dev.state == NmDeviceState::Disconnected {
        let raw = nm_dev_to_nm_iface(nm_dev);
        return ignore_unsupported(raw);
    }
    let ac = nm_ac_index(nm_acs, nm_dev.name.as_str(), &nm_dev.iface_type);
    if let Some(a) = ac {
        proof {
            lemma_last_ac_unique(nm_acs@, a as int, name, t);
        }
        if (nm_acs[a].state_flags & NM_ACTIVATION_STATE_FLAG_EXTERNAL) > 0 {
            let raw = nm_dev_to_nm_iface(nm_dev);
            return ignore_unsupported(raw);
        }
    }
    assert(!from_device_alone(nm_acs@, *nm_dev));
    let k = match first_nm_conn_index(nm_conns, nm_dev.name.as_str(), &nm_dev.iface_type) {
        Some(k) => k,
        None => {
            return None;
        },
    };
    let nm_conn = &nm_conns[k];
    // The UUID of an activation is that of its profile.
    let saved: Option<&NmConnection> = match ac {
        Some(a) => match last_saved_index(nm_saved_conns, &nm_acs[a].uuid) {
            Some(s) => {
                assert(is_last_saved(nm_saved_conns@, s as int, nm_acs@[a as int].uuid@));
                Some(&nm_saved_conns[s])
            },
            None => None,
        },
        None => None,
    };
    assert(is_saved_of(nm_saved_conns@, nm_acs@, *nm_dev, held(saved)));
    let lldp_neighbors = if is_lldp_enabled(nm_conn) {
        if running_config_only {
            Some(Vec::new())
        } else {
            match reported {
                Some(n) => Some(n),
                None => Some(Vec::new()),
            }
        }
    } else {
        None
    };
    assert(seen(lldp_neighbors) =~= lldp_shown(running_config_only, *nm_conn, seen(reported))) by {
        if lldp_neighbors is Some && lldp_shown(running_config_only, *nm_conn, seen(reported))
            is Some {
            assert(lldp_neighbors.unwrap()@ =~= lldp_shown(
                running_config_only,
                *nm_conn,
                seen(reported),
            ).unwrap());
        }
    }
    let raw = iface_get(nm_dev, nm_conn, saved, lldp_neighbors);
    let out = ignore_unsupported(raw);
    assert(is_first_conn(nm_conns@, k as int, name, t));
    assert(is_conn_iface(
        *nm_dev,
        nm_conns@[k as int],
        held(saved),
        lldp_shown(running_config_only, nm_conns@[k as int], seen(reported)),
        raw,
    ));
    out
}

/// Whether each of `outs` is what the device at its position contributes.
pub open spec fn all_retrieved(
    running_config_only: bool,
    conns: Seq<NmConnection>,
    devs: Seq<NmDevice>,
    saved: Seq<NmConnection>,
    acs: Seq<NmActiveConnection>,
    reported: Seq<Option<Vec<NmLldpNeighbor>>>,
    outs: Seq<Option<Interface>>,
) -> bool {
    &&& outs.len() == devs.len()
    &&& forall|i: int|
        0 <= i < devs.len() ==> retrieved(
            running_config_only,
            conns,
            devs,
            saved,
            acs,
            if i < reported.len() {
                seen(reported[i])
            } else {
                None
            },
            devs[i],
            #[trigger] outs[i],
        )
}

/// Whether each of `outs` is the interface at its position, ignored where
/// its kind is one that this library does not manage.
pub open spec fn all_adjusted(ifaces: Seq<Interface>, outs: Seq<Option<Interface>>) -> bool {
    &&& outs.len() == ifaces.len()
    &&& forall|i: int|
        0 <= i < ifaces.len() ==> ignored_if_unsupported(Some(ifaces[i]), #[trigger] outs[i])
}

/// The interfaces of a host as the profile backend reports them: what each
/// device contributes, in the order of the devices, then the VPN
/// interfaces, each in place of an earlier one with its key. `lldp_neighbors`
/// holds for each device the neighbours that the backend reported, where it
/// was asked. The resolver is left open.
pub fn nm_retrieve(
    running_config_only: bool,
    nm_conns: &Vec<NmConnection>,
    nm_devs: &Vec<NmDevice>,
    nm_saved_conns: &Vec<NmConnection>,
    nm_acs: &Vec<NmActiveConnection>,
    lldp_neighbors: Vec<Option<Vec<NmLldpNeighbor>>>,
    vpn_ifaces: Vec<Interface>,
) -> (net_state: crate::state::NetworkState)
    ensures
        net_state.dns is None,
        net_state.interfaces.wf(),
        exists|outs: Seq<Option<Interface>>, vpns: Seq<Option<Interface>>|
            {
                &&& #[trigger] all_retrieved(
                    running_config_only,
                    nm_conns@,
                    nm_devs@,
                    nm_saved_conns@,
                    nm_acs@,
                    lldp_neighbors@,
                    outs,
                )
                &&& #[trigger] all_adjusted(vpn_ifaces@, vpns)
                &&& (net_state.interfaces.kernel_ifaces@, net_state.interfaces.user_ifaces@)
                    == push_all(Seq::empty(), Seq::empty(), outs + vpns)
            },
{
    let mut interfaces = Interfaces::new();
    let ghost reported_all = lldp_neighbors@;
    let mut reported = lldp_neighbors;
    let mut outs: Ghost<Seq<Option<Interface>>> = Ghost(Seq::empty());
    let mut i: usize = 0;
    assert(interfaces.kernel_ifaces@ =~= Seq::<Interface>::empty());
    assert(interfaces.user_ifaces@ =~= Seq::<Interface>::empty());
    while i < nm_devs.len()
        invariant
            i <= nm_devs.len(),
            outs@.len() == i,
            interfaces.wf(),
            reported@.len() == reported_all.len(),
            forall|j: int| i <= j < reported@.len() ==> reported@[j] == reported_all[j],
            forall|j: int|
                0 <= j < i ==> retrieved(
                    running_config_only,
                    nm_conns@,
                    nm_devs@,
                    nm_saved_conns@,
                    nm_acs@,
                    if j < reported_all.len() {
                        seen(reported_all[j])
                    } else {
                        None
                    },
                    nm_devs@[j],
                    #[trigger] outs@[j],
                ),
            (interfaces.kernel_ifaces@, interfaces.user_ifaces@) == push_all(
                Seq::empty(),
                Seq::empty(),
                outs@,
            ),
        decreases nm_devs.len() - i,
    {
        let mut mine: Option<Vec<NmLldpNeighbor>> = None;
        if i < reported.len() {
            let mut slot: Option<Vec<NmLldpNeighbor>> = None;
            core::mem::swap(&mut slot, &mut reported[i]);
            mine = slot;
        }
        let out = retrieve_device(
            running_config_only,
            nm_conns,
            nm_devs,
            nm_saved_conns,
            nm_acs,
            mine,
            &nm_devs[i],
        );
        proof {
            let prev = outs@;
            outs@ = prev.push(out);
            assert(outs@.drop_last() =~= prev);
        }
        if let Some(iface) = out {
            interfaces.push(iface);
        }
        i += 1;
    }
    let ghost dev_outs = outs@;
    let ghost vpn_all = vpn_ifaces@;
    let mut vpns: Ghost<Seq<Option<Interface>>> = Ghost(Seq::empty());
    let mut rest = vpn_ifaces;
    let n = rest.len();
    let mut k: usize = 0;
    assert(dev_outs + vpns@ =~= dev_outs);
    while k < n
        invariant
            k <= n,
            n == vpn_all.len(),
            rest@ == vpn_all.skip(k as int),
            interfaces.wf(),
            vpns@.len() == k,
            forall|j: int|
                0 <= j < k ==> ignored_if_unsupported(Some(vpn_all[j]), #[trigger] vpns@[j]),
            (interfaces.kernel_ifaces@, interfaces.user_ifaces@) == push_all(
                Seq::empty(),
                Seq::empty(),
                dev_outs + vpns@,
            ),
        decreases n - k,
    {
        let iface = rest.remove(0);
        assert(rest@ =~= vpn_all.skip(k as int + 1));
        let out = ignore_unsupported(Some(iface));
        proof {
            let prev = vpns@;
            vpns@ = prev.push(out);
            assert((dev_outs + vpns@).drop_last() =~= dev_outs + prev);
        }
        if let Some(i) = out {
            interfaces.push(i);
        }
        k += 1;
    }
    proof {
        assert(all_retrieved(
            running_config_only,
            nm_conns@,
            nm_devs@,
            nm_saved_conns@,
            nm_acs@,
            reported_all,
            dev_outs,
        ));
        assert(all_adjusted(vpn_all, vpns@));
    }
    crate::state::NetworkState { interfaces, dns: None }
}

/// The resolver of a state: what is in effect is not shown where only the
/// running configuration is asked for.
pub fn set_dns(
    net_state: &mut crate::state::NetworkState,
    dns_config: crate::state::DnsState,
    running_config_only: bool,
)
    ensures
        final(net_state).interfaces == old(net_state).interfaces,
        final(net_state).dns matches Some(d) && d.config == dns_config.config && d.running == (
        if running_config_only {
            None
        } else {
            dns_config.running
        }),
{
    let mut dns = dns_config;
    if running_config_only {
        dns.running = None;
    }
    net_state.dns = Some(dns);
}

/// The position of the last of the scripts that is for an interface.
pub open spec fn dispatch_position(dispatches: Seq<(String, DispatchConfig)>, name: Text) -> Option<
    int,
> {
    crate::fold::last_index(dispatches, |d: (String, DispatchConfig)| d.0@ == name)
}

/// Whether `after` is `before` with the scripts that are for it: the last
/// of them, where there are several; its own where there are none.
pub open spec fn dispatched(
    dispatches: Seq<(String, DispatchConfig)>,
    before: Interface,
    after: Interface,
) -> bool {
    &&& same_but_base(before, after)
    &&& iface_base(after).prop_list == iface_base(before).prop_list
    &&& iface_base(after)@ == (BaseInterfaceView {
        dispatch: match dispatch_position(dispatches, iface_base(before).name@) {
            Some(k) => Some(dispatches[k].1.deep_view()),
            None => iface_base(before)@.dispatch,
        },
        ..iface_base(before)@
    })
}

fn last_dispatch(dispatches: &Vec<(String, DispatchConfig)>, name: &String) -> (r: Option<usize>)
    ensures
        match r {
            Some(k) => k < dispatches@.len() && dispatch_position(dispatches@, name@) == Some(
                k as int,
            ),
            None => dispatch_position(dispatches@, name@) is None,
        },
{
    let ghost p = |d: (String, DispatchConfig)| d.0@ == name@;
    let mut k: usize = dispatches.len();
    while k > 0
        invariant
            k <= dispatches.len(),
            p == (|d: (String, DispatchConfig)| d.0@ == name@),
            forall|j: int| k <= j < dispatches@.len() ==> !p(#[trigger] dispatches@[j]),
        decreases k,
    {
        k -= 1;
        if string_eq(&dispatches[k].0, name) {
            proof {
                assert(p(dispatches@[k as int]));
                crate::fold::lemma_last_index(dispatches@, p, k as int);
            }
            return Some(k);
        }
    }
    proof {
        crate::fold::lemma_last_index(dispatches@, p, 0);
    }
    None
}

/// Gives the interfaces of the kernel the scripts that are to run after
/// they change, each by the name of its interface. The other interfaces stay
/// as they are.
pub fn set_dispatches(
    net_state: &mut crate::state::NetworkState,
    dispatches: &Vec<(String, DispatchConfig)>,
)
    ensures
        final(net_state).dns == old(net_state).dns,
        final(net_state).interfaces.user_ifaces == old(net_state).interfaces.user_ifaces,
        final(net_state).interfaces.kernel_ifaces@.len() == old(
            net_state,
        ).interfaces.kernel_ifaces@.len(),
        forall|i: int|
            0 <= i < old(net_state).interfaces.kernel_ifaces@.len() ==> dispatched(
                dispatches@,
                old(net_state).interfaces.kernel_ifaces@[i],
                #[trigger] final(net_state).interfaces.kernel_ifaces@[i],
            ),
{
    let ghost before = net_state.interfaces.kernel_ifaces@;
    let mut rest: Vec<Interface> = Vec::new();
    core::mem::swap(&mut rest, &mut net_state.interfaces.kernel_ifaces);
    let n = rest.len();
    let mut done: Vec<Interface> = Vec::new();
    let mut i: usize = 0;
    while i < n
        invariant
            i <= n,
            n == before.len(),
            rest@ == before.skip(i as int),
            done@.len() == i,
            forall|j: int| 0 <= j < i ==> dispatched(dispatches@, before[j], #[trigger] done@[j]),
        decreases n - i,
    {
        let iface = rest.remove(0);
        assert(iface == before[i as int]);
        assert(rest@ =~= before.skip(i as int + 1));
        let out = match last_dispatch(dispatches, iface.name()) {
            Some(k) => iface.with_dispatch(Some(dispatches[k].1.clone())),
            None => {
                let own = iface.base_iface().dispatch.clone();
                iface.with_dispatch(own)
            },
        };
        assert(iface_base(out)@ =~= (BaseInterfaceView {
            dispatch: match dispatch_position(dispatches@, iface_base(iface).name@) {
                Some(k) => Some(dispatches@[k].1.deep_view()),
                None => iface_base(iface)@.dispatch,
            },
            ..iface_base(iface)@
        }));
        done.push(out);
        i += 1;
    }
    net_state.interfaces.kernel_ifaces = done;
}

} // verus!
