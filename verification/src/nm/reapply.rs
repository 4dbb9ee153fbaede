//! What an active profile cannot take over while it stays active.

use vstd::prelude::*;
use crate::nm::connection::{
    NmConnection, NmIpRoute, NmIpRouteView, NmSettingIp, conn_controller, conn_controller_type,
    conn_iface_name, conn_iface_type,
};
use crate::nm::iface_type::NmIfaceTypeView;
use crate::nm::ipvlan::ipvlan_differs;
use crate::text::{Text, opt_string_eq, string_eq};

verus! {

/// The static routes of an IP setting.
pub open spec fn ip_routes(s: Option<NmSettingIp>) -> Seq<NmIpRouteView> {
    match s {
        Some(ip) => ip.routes.deep_view(),
        None => Seq::empty(),
    }
}

/// The static routes of a profile: those of IPv4, then those of IPv6.
pub open spec fn conn_routes(c: NmConnection) -> Seq<NmIpRouteView> {
    ip_routes(c.ipv4) + ip_routes(c.ipv6)
}

/// Whether the new profile lacks a static route of the current one.
pub open spec fn route_removed(new: NmConnection, cur: NmConnection) -> bool {
    exists|k: int|
        0 <= k < conn_routes(cur).len() && !conn_routes(new).contains(
            #[trigger] conn_routes(cur)[k],
        )
}

/// Whether the new profile has another VRF table than the current one.
pub open spec fn vrf_table_id_changed(new: NmConnection, cur: NmConnection) -> bool {
    new.vrf is Some && cur.vrf is Some && new.vrf.unwrap().table != cur.vrf.unwrap().table
}

/// Whether the new profile has another VLAN id or protocol than the current
/// one.
pub open spec fn vlan_changed(new: NmConnection, cur: NmConnection) -> bool {
    new.vlan is Some && cur.vlan is Some && (new.vlan.unwrap().id != cur.vlan.unwrap().id
        || new.vlan.unwrap().protocol.deep_view() != cur.vlan.unwrap().protocol.deep_view())
}

/// Whether the new profile has another VXLAN id than the current one.
pub open spec fn vxlan_changed(new: NmConnection, cur: NmConnection) -> bool {
    new.vxlan is Some && cur.vxlan is Some && new.vxlan.unwrap().id != cur.vxlan.unwrap().id
}

/// Whether the new profile has another veth peer than the current one.
pub open spec fn veth_peer_changed(new: NmConnection, cur: NmConnection) -> bool {
    new.veth is Some && cur.veth is Some && new.veth.unwrap()@.peer != cur.veth.unwrap()@.peer
}

/// The flags of multipath TCP of a profile.
pub open spec fn mptcp_flags(c: NmConnection) -> Option<u32> {
    match c.connection {
        Some(s) => s.mptcp_flags,
        None => None,
    }
}

/// Whether the new profile has other flags of multipath TCP than the current
/// one.
pub open spec fn mptcp_flags_changed(new: NmConnection, cur: NmConnection) -> bool {
    mptcp_flags(new) != mptcp_flags(cur)
}

/// Whether the new profile has another IPVLAN parent, mode or flag than the
/// current one.
pub open spec fn ipvlan_changed(new: NmConnection, cur: NmConnection) -> bool {
    new.ipvlan is Some && cur.ipvlan is Some && ipvlan_differs(
        new.ipvlan.unwrap()@,
        cur.ipvlan.unwrap()@,
    )
}

/// Whether a profile is a port of one of the named bridges.
pub open spec fn bridge_port_of(c: NmConnection, bridges: Seq<Text>) -> bool {
    conn_controller_type(c) == Some(NmIfaceTypeView::Bridge) && conn_controller(c) is Some
        && bridges.contains(conn_controller(c).unwrap())
}

/// Whether a profile is a port of a bond and for one of the named
/// interfaces.
pub open spec fn bond_port_among(c: NmConnection, ports: Seq<Text>) -> bool {
    conn_controller_type(c) == Some(NmIfaceTypeView::Bond) && conn_iface_name(c) is Some
        && ports.contains(conn_iface_name(c).unwrap())
}

/// Whether the profile `new` cannot be applied while `cur` stays active: a
/// static route is gone; the VRF table, the VLAN, the VXLAN, the veth peer,
/// the flags of multipath TCP or the IPVLAN changed; it is a VPN profile; it
/// is a port of a bridge whose default port VLAN changes; or it is a port of
/// a bond whose queue id changes.
pub open spec fn needs_deactivation(
    new: NmConnection,
    cur: NmConnection,
    pvid_bridges: Seq<Text>,
    queue_ports: Seq<Text>,
) -> bool {
    ||| route_removed(new, cur)
    ||| vrf_table_id_changed(new, cur)
    ||| vlan_changed(new, cur)
    ||| vxlan_changed(new, cur)
    ||| veth_peer_changed(new, cur)
    ||| mptcp_flags_changed(new, cur)
    ||| conn_iface_type(new) == Some(NmIfaceTypeView::Vpn)
    ||| bridge_port_of(new, pvid_bridges)
    ||| bond_port_among(new, queue_ports)
    ||| ipvlan_changed(new, cur)
}

fn routes_hold(routes: &Vec<NmIpRoute>, r: &NmIpRoute) -> (b: bool)
    ensures
        b == routes.deep_view().contains(r.deep_view()),
{
    let mut k: usize = 0;
    while k < routes.len()
        invariant
            k <= routes.len(),
            forall|j: int| 0 <= j < k ==> routes.deep_view()[j] != r.deep_view(),
        decreases routes.len() - k,
    {
        if routes[k].same(r) {
            assert(routes.deep_view()[k as int] == r.deep_view());
            return true;
        }
        k += 1;
    }
    false
}

fn has_route(c: &NmConnection, r: &NmIpRoute) -> (b: bool)
    ensures
        b == conn_routes(*c).contains(r.deep_view()),
{
    let in4 = match &c.ipv4 {
        Some(ip) => routes_hold(&ip.routes, r),
        None => false,
    };
    let in6 = match &c.ipv6 {
        Some(ip) => routes_hold(&ip.routes, r),
        None => false,
    };
    proof {
        let a = ip_routes(c.ipv4);
        let b = ip_routes(c.ipv6);
        let v = r.deep_view();
        if a.contains(v) {
            let i = choose|i: int| 0 <= i < a.len() && a[i] == v;
            assert((a + b)[i] == v);
        }
        if b.contains(v) {
            let i = choose|i: int| 0 <= i < b.len() && b[i] == v;
            assert((a + b)[a.len() + i] == v);
        }
        if (a + b).contains(v) {
            let i = choose|i: int| 0 <= i < (a + b).len() && (a + b)[i] == v;
            if i < a.len() {
                assert(a[i] == v);
            } else {
                assert(b[i - a.len()] == v);
            }
        }
    }
    in4 || in6
}

fn some_missing(routes: &Vec<NmIpRoute>, new: &NmConnection) -> (b: bool)
    ensures
        b == exists|k: int|
            0 <= k < routes.deep_view().len() && !conn_routes(*new).contains(
                #[trigger] routes.deep_view()[k],
            ),
{
    let mut k: usize = 0;
    while k < routes.len()
        invariant
            k <= routes.len(),
            forall|j: int|
                0 <= j < k ==> conn_routes(*new).contains(#[trigger] routes.deep_view()[j]),
        decreases routes.len() - k,
    {
        if !has_route(new, &routes[k]) {
            assert(!conn_routes(*new).contains(routes.deep_view()[k as int]));
            return true;
        }
        k += 1;
    }
    false
}

/// Whether the new profile lacks a static route of the current one.
pub fn is_route_removed(new_nm_conn: &NmConnection, cur_nm_conn: &NmConnection) -> (b: bool)
    ensures
        b == route_removed(*new_nm_conn, *cur_nm_conn),
{
    let gone4 = match &cur_nm_conn.ipv4 {
        Some(ip) => some_missing(&ip.routes, new_nm_conn),
        None => false,
    };
    let gone6 = match &cur_nm_conn.ipv6 {
        Some(ip) => some_missing(&ip.routes, new_nm_conn),
        None => false,
    };
    proof {
        let a = ip_routes(cur_nm_conn.ipv4);
        let b = ip_routes(cur_nm_conn.ipv6);
        let all = conn_routes(*cur_nm_conn);
        let new = conn_routes(*new_nm_conn);
        if gone4 {
            let k = choose|k: int| 0 <= k < a.len() && !new.contains(#[trigger] a[k]);
            assert(all[k] == a[k]);
        }
        if gone6 {
            let k = choose|k: int| 0 <= k < b.len() && !new.contains(#[trigger] b[k]);
            assert(all[a.len() + k] == b[k]);
        }
        if route_removed(*new_nm_conn, *cur_nm_conn) {
            let k = choose|k: int| 0 <= k < all.len() && !new.contains(#[trigger] all[k]);
            if k < a.len() {
                assert(a[k] == all[k]);
            } else {
                assert(b[k - a.len()] == all[k]);
            }
        }
    }
    gone4 || gone6
}

/// Whether the new profile has another VRF table than the current one.
pub fn is_vrf_table_id_changed(new_nm_conn: &NmConnection, cur_nm_conn: &NmConnection) -> (b: bool)
    ensures
        b == vrf_table_id_changed(*new_nm_conn, *cur_nm_conn),
{
    match (&new_nm_conn.vrf, &cur_nm_conn.vrf) {
        (Some(n), Some(c)) => n.table != c.table,
        _ => false,
    }
}

/// Whether the new profile has another VLAN id or protocol than the current
/// one.
pub fn is_vlan_changed(new_nm_conn: &NmConnection, cur_nm_conn: &NmConnection) -> (b: bool)
    ensures
        b == vlan_changed(*new_nm_conn, *cur_nm_conn),
{
    match (&new_nm_conn.vlan, &cur_nm_conn.vlan) {
        (Some(n), Some(c)) => n.id != c.id || !opt_string_eq(&n.protocol, &c.protocol),
        _ => false,
    }
}

/// Whether the new profile has another VXLAN id than the current one.
pub fn is_vxlan_changed(new_nm_conn: &NmConnection, cur_nm_conn: &NmConnection) -> (b: bool)
    ensures
        b == vxlan_changed(*new_nm_conn, *cur_nm_conn),
{
    match (&new_nm_conn.vxlan, &cur_nm_conn.vxlan) {
        (Some(n), Some(c)) => n.id != c.id,
        _ => false,
    }
}

/// Whether the new profile has another veth peer than the current one.
pub fn is_veth_peer_changed(new_nm_conn: &NmConnection, cur_nm_conn: &NmConnection) -> (b: bool)
    ensures
        b == veth_peer_changed(*new_nm_conn, *cur_nm_conn),
{
    match (&new_nm_conn.veth, &cur_nm_conn.veth) {
        (Some(n), Some(c)) => !opt_string_eq(n.peer(), c.peer()),
        _ => false,
    }
}

/// Whether the new profile has other flags of multipath TCP than the current
/// one.
pub fn is_mptcp_flags_changed(new_nm_conn: &NmConnection, cur_nm_conn: &NmConnection) -> (b: bool)
    ensures
        b == mptcp_flags_changed(*new_nm_conn, *cur_nm_conn),
{
    let n = match &new_nm_conn.connection {
        Some(s) => s.mptcp_flags,
        None => None,
    };
    let c = match &cur_nm_conn.connection {
        Some(s) => s.mptcp_flags,
        None => None,
    };
    n != c
}

/// Whether the new profile has another IPVLAN parent, mode or flag than the
/// current one.
pub fn is_ipvlan_changed(new_nm_conn: &NmConnection, cur_nm_conn: &NmConnection) -> (b: bool)
    ensures
        b == ipvlan_changed(*new_nm_conn, *cur_nm_conn),
{
    match (&new_nm_conn.ipvlan, &cur_nm_conn.ipvlan) {
        (Some(n), Some(c)) => n.differs(c),
        _ => false,
    }
}

/// Whether a list of names holds a name.
pub fn names_hold(names: &Vec<&String>, name: &String) -> (b: bool)
    ensures
        b == names.deep_view().contains(name@),
{
    let mut k: usize = 0;
    while k < names.len()
        invariant
            k <= names.len(),
            forall|j: int| 0 <= j < k ==> names.deep_view()[j] != name@,
        decreases names.len() - k,
    {
        if string_eq(names[k], name) {
            assert(names.deep_view()[k as int] == name@);
            return true;
        }
        k += 1;
    }
    false
}

/// Whether a profile is a port of a bridge whose default port VLAN changes:
/// such a port has to be activated anew.
pub fn is_bridge_port_changed_default_pvid(
    nm_conn: &NmConnection,
    default_pvid_changed_brs: &Vec<&String>,
) -> (b: bool)
    ensures
        b == bridge_port_of(*nm_conn, default_pvid_changed_brs.deep_view()),
{
    let is_port = match nm_conn.controller_type() {
        Some(t) => t.is_bridge(),
        None => false,
    };
    if is_port {
        if let Some(ctrl_name) = nm_conn.controller() {
            if names_hold(default_pvid_changed_brs, ctrl_name) {
                return true;
            }
        }
    }
    false
}

/// Whether a profile is a port of a bond whose queue id changes: such a port
/// has to be activated anew.
pub fn is_bond_port_queue_id_changed(nm_conn: &NmConnection, changed_ports: &Vec<&String>) -> (b:
    bool)
    ensures
        b == bond_port_among(*nm_conn, changed_ports.deep_view()),
{
    let is_port = match nm_conn.controller_type() {
        Some(t) => t.is_bond(),
        None => false,
    };
    if is_port {
        if let Some(iface_name) = nm_conn.iface_name() {
            if names_hold(changed_ports, iface_name) {
                return true;
            }
        }
    }
    false
}

/// Whether the profile `new` cannot be applied while `cur` stays active.
pub fn must_deactivate_first(
    new_nm_conn: &NmConnection,
    cur_nm_conn: &NmConnection,
    default_pvid_changed_brs: &Vec<&String>,
    bond_queue_id_changed_ports: &Vec<&String>,
) -> (b: bool)
    ensures
        b == needs_deactivation(
            *new_nm_conn,
            *cur_nm_conn,
            default_pvid_changed_brs.deep_view(),
            bond_queue_id_changed_ports.deep_view(),
        ),
{
    let vpn = match new_nm_conn.iface_type() {
        Some(t) => t.is_vpn(),
        None => false,
    };
    is_route_removed(new_nm_conn, cur_nm_conn) || is_vrf_table_id_changed(
        new_nm_conn,
        cur_nm_conn,
    ) || is_vlan_changed(new_nm_conn, cur_nm_conn) || is_vxlan_changed(new_nm_conn, cur_nm_conn)
        || is_veth_peer_changed(new_nm_conn, cur_nm_conn) || is_mptcp_flags_changed(
        new_nm_conn,
        cur_nm_conn,
    ) || vpn || is_bridge_port_changed_default_pvid(new_nm_conn, default_pvid_changed_brs)
        || is_bond_port_queue_id_changed(new_nm_conn, bond_queue_id_changed_ports)
        || is_ipvlan_changed(new_nm_conn, cur_nm_conn)
}

} // verus!
