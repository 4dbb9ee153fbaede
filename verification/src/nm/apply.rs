//! The plan of a reconciliation: which profiles and devices go, which
//! profiles are taken down before they are stored anew, and in what order
//! the backend is asked.

use vstd::prelude::*;
use crate::base_iface::{InterfaceIdentifier, InterfaceState, InterfaceTypeView};
use crate::error::{ErrorKind, NmstateError};
use crate::fold::{
    collect_seq, first_index, lemma_collect_step, lemma_first_index, lemma_union_step, set_of,
    union_over,
};
use crate::iface::{iface_base, iface_kind, kind_virtual};
use crate::nm::connection::{
    NmConnection, NmDevice, conn_controller, conn_controller_type,
    conn_iface_name, conn_iface_type, conn_id, conn_mac, conn_uuid,
};
use crate::nm::iface_type::{
    NmIfaceType, NmIfaceTypeView, iface_type_to_nm, index_type, nm_type, no_nm_type_msg,
};
use crate::nm::reapply::{must_deactivate_first, needs_deactivation};
use crate::nm::show::in_bucket;
use crate::state::{
    MergedInterface, MergedInterfaces, MergedNetworkState, changed_queue_ports,
    default_pvid_changed,
};
use crate::text::{Text, eq_ignore_case, is_uuid, is_uuid_text, string_eq, uppercase};

verus! {

/// The name of a merged interface, where a reconciliation changes the
/// default port VLAN of the bridge it is.
pub open spec fn pvid_bridge(m: MergedInterface) -> Seq<Text> {
    if default_pvid_changed(m) {
        seq![iface_base(m.merged).name@]
    } else {
        Seq::empty()
    }
}

/// The names of the bridges whose default port VLAN a reconciliation
/// changes, in the order of the interfaces of the kernel.
pub fn get_default_pvid_changed_brs(merged_iface: &MergedInterfaces) -> (names: Vec<&String>)
    ensures
        names.deep_view() == collect_seq(
            merged_iface.kernel_ifaces@,
            |m: MergedInterface| pvid_bridge(m),
        ),
{
    let ghost f = |m: MergedInterface| pvid_bridge(m);
    let ifaces = &merged_iface.kernel_ifaces;
    let mut names: Vec<&String> = Vec::new();
    let mut k: usize = 0;
    assert(names.deep_view() =~= collect_seq(ifaces@.take(0), f));
    while k < ifaces.len()
        invariant
            k <= ifaces.len(),
            f == (|m: MergedInterface| pvid_bridge(m)),
            names.deep_view() == collect_seq(ifaces@.take(k as int), f),
        decreases ifaces.len() - k,
    {
        let m = &ifaces[k];
        proof {
            lemma_collect_step(ifaces@, f, k as int);
        }
        let ghost before = names.deep_view();
        if m.is_default_pvid_changed() {
            names.push(m.merged.name());
            assert(names.deep_view() =~= before + pvid_bridge(*m));
        } else {
            assert(names.deep_view() =~= before + pvid_bridge(*m));
        }
        k += 1;
    }
    assert(ifaces@.take(ifaces.len() as int) =~= ifaces@);
    names
}

/// The names of the ports whose queue id a reconciliation changes, where the
/// merged interface is a bond that is desired or changed.
pub open spec fn queue_ports(m: MergedInterface) -> Seq<Text> {
    if (m.desired is Some || m.for_apply is Some) && iface_base(m.merged).iface_type@
        == InterfaceTypeView::Bond {
        changed_queue_ports(m)
    } else {
        Seq::empty()
    }
}

/// The names of the ports of bonds whose queue id a reconciliation changes,
/// bond by bond in the order of the interfaces of the kernel.
pub fn get_bond_ports_with_queue_id_changed(merged_iface: &MergedInterfaces) -> (names: Vec<
    &String,
>)
    ensures
        names.deep_view() == collect_seq(
            merged_iface.kernel_ifaces@,
            |m: MergedInterface| queue_ports(m),
        ),
{
    let ghost f = |m: MergedInterface| queue_ports(m);
    let ifaces = &merged_iface.kernel_ifaces;
    let mut names: Vec<&String> = Vec::new();
    let mut k: usize = 0;
    assert(names.deep_view() =~= collect_seq(ifaces@.take(0), f));
    while k < ifaces.len()
        invariant
            k <= ifaces.len(),
            f == (|m: MergedInterface| queue_ports(m)),
            names.deep_view() == collect_seq(ifaces@.take(k as int), f),
        decreases ifaces.len() - k,
    {
        let m = &ifaces[k];
        proof {
            lemma_collect_step(ifaces@, f, k as int);
        }
        let ghost before = names.deep_view();
        if (m.is_desired() || m.is_changed()) && m.merged.iface_type().same(
            &crate::base_iface::InterfaceType::Bond,
        ) {
            let mut ports = m.get_bond_ports_with_queue_id_changed();
            let ghost added = ports.deep_view();
            names.append(&mut ports);
            assert(names.deep_view() =~= before + added);
        } else {
            assert(names.deep_view() =~= before + queue_ports(*m));
        }
        k += 1;
    }
    assert(ifaces@.take(ifaces.len() as int) =~= ifaces@);
    names
}

/// The position of the first of the active profiles with a UUID.
pub open spec fn first_active(active: Seq<NmConnection>, uuid: Text) -> Option<int> {
    first_index(active, |c: NmConnection| conn_uuid(c) == Some(uuid))
}

/// The active profile that has to be taken down before `new` is stored and
/// activated: the first active profile with the UUID of `new`, where `new`
/// cannot be applied while it stays active. Nothing where `new` has no UUID
/// or is not active, or can be applied in place.
pub open spec fn deactivated_for(
    new: NmConnection,
    active: Seq<NmConnection>,
    pvid_bridges: Seq<Text>,
    queue_ports: Seq<Text>,
) -> Seq<NmConnection> {
    match conn_uuid(new) {
        None => Seq::empty(),
        Some(uuid) => match first_active(active, uuid) {
            None => Seq::empty(),
            Some(k) => if needs_deactivation(new, active[k], pvid_bridges, queue_ports) {
                seq![active[k]]
            } else {
                Seq::empty()
            },
        },
    }
}

/// What a list of references refers to.
pub open spec fn referred<A>(refs: Seq<&A>) -> Seq<A> {
    Seq::new(refs.len(), |i: int| *refs[i])
}

/// The active profiles that have to be taken down first, for each of the
/// profiles to activate in their order.
pub open spec fn deactivated_first(
    to_activate: Seq<NmConnection>,
    active: Seq<NmConnection>,
    pvid_bridges: Seq<Text>,
    queue_ports: Seq<Text>,
) -> Seq<NmConnection> {
    collect_seq(
        to_activate,
        |new: NmConnection| deactivated_for(new, active, pvid_bridges, queue_ports),
    )
}

fn first_active_index(activated_nm_conns: &Vec<&NmConnection>, uuid: &String) -> (r: Option<usize>)
    ensures
        match r {
            Some(k) => first_active(referred(activated_nm_conns@), uuid@) == Some(k as int) && k
                < activated_nm_conns@.len(),
            None => first_active(referred(activated_nm_conns@), uuid@) is None,
        },
{
    let ghost p = |c: NmConnection| conn_uuid(c) == Some(uuid@);
    let mut k: usize = 0;
    while k < activated_nm_conns.len()
        invariant
            k <= activated_nm_conns.len(),
            p == (|c: NmConnection| conn_uuid(c) == Some(uuid@)),
            forall|j: int| 0 <= j < k ==> !p(#[trigger] referred(activated_nm_conns@)[j]),
        decreases activated_nm_conns.len() - k,
    {
        let same = match activated_nm_conns[k].uuid() {
            Some(u) => string_eq(u, uuid),
            None => false,
        };
        if same {
            proof {
                assert(p(referred(activated_nm_conns@)[k as int]));
                lemma_first_index(referred(activated_nm_conns@), p, k as int);
            }
            return Some(k);
        }
        k += 1;
    }
    proof {
        lemma_first_index(referred(activated_nm_conns@), p, 0);
    }
    None
}

/// The active profiles that have to be taken down before the new profiles
/// are stored and activated, in the order of the profiles to activate. The
/// backend cannot take these changes over while a profile stays active:
/// a static route that is gone; another VRF table, VLAN, VXLAN, veth peer or
/// IPVLAN; other flags of multipath TCP; any change of a VPN; a port of a
/// bridge whose default port VLAN changes; a port of a bond whose queue id
/// changes. A profile with any other change is applied in place.
pub fn gen_nm_conn_need_to_deactivate_first<'a>(
    merged_iface: &MergedInterfaces,
    nm_conns_to_activate: &Vec<NmConnection>,
    activated_nm_conns: &Vec<&'a NmConnection>,
) -> (ret: Vec<&'a NmConnection>)
    ensures
        referred(ret@) == deactivated_first(
            nm_conns_to_activate@,
            referred(activated_nm_conns@),
            collect_seq(merged_iface.kernel_ifaces@, |m: MergedInterface| pvid_bridge(m)),
            collect_seq(merged_iface.kernel_ifaces@, |m: MergedInterface| queue_ports(m)),
        ),
{
    let mut ret: Vec<&'a NmConnection> = Vec::new();
    let default_pvid_changed_brs = get_default_pvid_changed_brs(merged_iface);
    let bond_queue_id_changed_ports = get_bond_ports_with_queue_id_changed(merged_iface);
    let ghost active = referred(activated_nm_conns@);
    let ghost brs = default_pvid_changed_brs.deep_view();
    let ghost ports = bond_queue_id_changed_ports.deep_view();
    let ghost f = |new: NmConnection| deactivated_for(new, active, brs, ports);
    let mut i: usize = 0;
    assert(referred(ret@) =~= collect_seq(nm_conns_to_activate@.take(0), f));
    while i < nm_conns_to_activate.len()
        invariant
            i <= nm_conns_to_activate.len(),
            active == referred(activated_nm_conns@),
            brs == default_pvid_changed_brs.deep_view(),
            ports == bond_queue_id_changed_ports.deep_view(),
            f == (|new: NmConnection| deactivated_for(new, active, brs, ports)),
            referred(ret@) == collect_seq(nm_conns_to_activate@.take(i as int), f),
        decreases nm_conns_to_activate.len() - i,
    {
        let nm_conn = &nm_conns_to_activate[i];
        let ghost before = referred(ret@);
        proof {
            lemma_collect_step(nm_conns_to_activate@, f, i as int);
        }
        let mut pushed = false;
        if let Some(uuid) = nm_conn.uuid() {
            if let Some(k) = first_active_index(activated_nm_conns, uuid) {
                let activated_nm_con: &'a NmConnection = activated_nm_conns[k];
                assert(*activated_nm_con == active[k as int]);
                if must_deactivate_first(
                    nm_conn,
                    activated_nm_con,
                    &default_pvid_changed_brs,
                    &bond_queue_id_changed_ports,
                ) {
                    ret.push(activated_nm_con);
                    pushed = true;
                    assert(referred(ret@) =~= before + seq![*activated_nm_con]);
                }
            }
        }
        if !pushed {
            assert(referred(ret@) =~= before + Seq::<NmConnection>::empty());
        }
        i += 1;
    }
    assert(nm_conns_to_activate@.take(nm_conns_to_activate.len() as int) =~= nm_conns_to_activate@);
    ret
}

/// Whether a reconciliation removes an interface: it changes it, and the
/// merged interface is listed for removal.
pub open spec fn to_delete(m: MergedInterface) -> bool {
    m.for_apply is Some && iface_base(m.merged).state == InterfaceState::Absent
}

/// Whether a profile is an IPsec profile of the given name.
pub open spec fn ipsec_match(c: NmConnection, name: Text) -> bool {
    conn_iface_type(c) == Some(NmIfaceTypeView::Vpn) && conn_id(c) == Some(name)
}

/// Whether the current interface is found by its MAC address.
pub open spec fn mac_identified(m: MergedInterface) -> bool {
    m.current is Some && iface_base(m.current.unwrap()).identifier == Some(
        InterfaceIdentifier::MacAddress,
    )
}

/// Whether a profile is for the interface by name and kind: by name alone
/// where the kind of the interface is not known.
pub open spec fn by_name_and_type(m: MergedInterface, c: NmConnection) -> bool {
    let b = iface_base(m.merged);
    if b.iface_type@ == InterfaceTypeView::Unknown {
        conn_iface_name(c) == Some(b.name@)
    } else {
        match nm_type(b.iface_type@) {
            Some(t) => in_bucket(c, b.name@, t),
            None => false,
        }
    }
}

/// Whether a profile is for the interface by its own name: the current
/// interface is found by its MAC address and has the name to remove as its
/// profile name, and the profile has that name.
pub open spec fn by_profile_name(m: MergedInterface, c: NmConnection) -> bool {
    mac_identified(m) && iface_base(m.current.unwrap()).profile_name.deep_view() == Some(
        iface_base(m.merged).name@,
    ) && conn_id(c) == Some(iface_base(m.merged).name@)
}

/// Whether a profile is for the interface by MAC address: the current
/// interface is found by its MAC address and has the name to remove, and the
/// profile is bound to its MAC address, whatever the case of the letters.
pub open spec fn by_mac(m: MergedInterface, c: NmConnection) -> bool {
    mac_identified(m) && iface_base(m.current.unwrap()).name@ == iface_base(m.merged).name@
        && iface_base(m.current.unwrap()).mac_address is Some && conn_mac(c) is Some
        && uppercase(conn_mac(c).unwrap()) == uppercase(
        iface_base(m.current.unwrap()).mac_address.unwrap()@,
    )
}

/// Whether a profile goes with an interface that is removed.
pub open spec fn selected(m: MergedInterface, c: NmConnection) -> bool {
    by_name_and_type(m, c) || by_profile_name(m, c) || by_mac(m, c)
}

/// The UUID of a profile, where it is a port profile of Open vSwitch for the
/// interface `name`.
pub open spec fn ovs_port_uuid(c: NmConnection, name: Text) -> Set<Text> {
    if in_bucket(c, name, NmIfaceTypeView::OvsPort) {
        set_of(conn_uuid(c))
    } else {
        Set::empty()
    }
}

/// The port profiles of Open vSwitch that go with a profile: where its
/// controller is a port of Open vSwitch, the controller itself where the
/// profile names it by UUID, else the port profiles for the name.
pub open spec fn port_targets(all: Seq<NmConnection>, c: NmConnection) -> Set<Text> {
    if conn_controller_type(c) == Some(NmIfaceTypeView::OvsPort) && conn_controller(c) is Some {
        let ctrl = conn_controller(c).unwrap();
        if is_uuid_text(ctrl) {
            set![ctrl]
        } else {
            union_over(all, |p: NmConnection| ovs_port_uuid(p, ctrl))
        }
    } else {
        Set::empty()
    }
}

/// The UUIDs that go with a profile that is removed: its own, and those of
/// the port profiles of Open vSwitch that go with it.
pub open spec fn conn_targets(all: Seq<NmConnection>, c: NmConnection) -> Set<Text> {
    set_of(conn_uuid(c)).union(port_targets(all, c))
}

/// The UUID of a profile, where it is an IPsec profile of the given name.
pub open spec fn ipsec_uuid(c: NmConnection, name: Text) -> Set<Text> {
    if ipsec_match(c, name) {
        set_of(conn_uuid(c))
    } else {
        Set::empty()
    }
}

/// The UUIDs that go with a profile, where it goes with the interface.
pub open spec fn selected_targets(all: Seq<NmConnection>, m: MergedInterface, c: NmConnection) -> Set<
    Text,
> {
    if selected(m, c) {
        conn_targets(all, c)
    } else {
        Set::empty()
    }
}

/// The UUIDs of the profiles that go with an interface that is removed: for
/// an IPsec interface its profiles by name; for any other the profiles that
/// go with it, each with what goes with the profile.
pub open spec fn iface_targets(all: Seq<NmConnection>, m: MergedInterface) -> Set<Text> {
    if iface_base(m.merged).iface_type@ == InterfaceTypeView::Ipsec {
        union_over(all, |c: NmConnection| ipsec_uuid(c, iface_base(m.merged).name@))
    } else {
        union_over(all, |c: NmConnection| selected_targets(all, m, c))
    }
}

/// The UUIDs that an interface lets go, where it is removed.
pub open spec fn removed_targets(all: Seq<NmConnection>, m: MergedInterface) -> Set<Text> {
    if to_delete(m) {
        iface_targets(all, m)
    } else {
        Set::empty()
    }
}

/// The UUIDs of the profiles that a reconciliation removes.
pub open spec fn delete_targets(all: Seq<NmConnection>, ifaces: Seq<MergedInterface>) -> Set<Text> {
    union_over(ifaces, |m: MergedInterface| removed_targets(all, m))
}

/// Whether an interface that is removed is of a kind that the backend has no
/// profiles for.
pub open spec fn unmapped(m: MergedInterface) -> bool {
    let t = iface_base(m.merged).iface_type@;
    to_delete(m) && t != InterfaceTypeView::Ipsec && t != InterfaceTypeView::Unknown && nm_type(t)
        is None
}

fn holds_text(set: &Vec<String>, uuid: &String) -> (b: bool)
    ensures
        b == set.deep_view().contains(uuid@),
{
    let mut k: usize = 0;
    while k < set.len()
        invariant
            k <= set.len(),
            forall|j: int| 0 <= j < k ==> set.deep_view()[j] != uuid@,
        decreases set.len() - k,
    {
        if string_eq(&set[k], uuid) {
            assert(set.deep_view()[k as int] == uuid@);
            return true;
        }
        k += 1;
    }
    false
}

fn add_uuid(set: &mut Vec<String>, uuid: &String)
    requires
        old(set).deep_view().no_duplicates(),
    ensures
        final(set).deep_view().no_duplicates(),
        final(set).deep_view().to_set() == old(set).deep_view().to_set().insert(uuid@),
{
    let ghost before = set.deep_view();
    if !holds_text(set, uuid) {
        set.push(uuid.clone());
        proof {
            let after = set.deep_view();
            assert(after =~= before.push(uuid@));
            assert forall|t: Text| after.to_set().contains(t) == before.to_set().insert(
                uuid@,
            ).contains(t) by {
                if after.contains(t) {
                    let i = choose|i: int| 0 <= i < after.len() && after[i] == t;
                    if i < before.len() {
                        assert(before[i] == t);
                    }
                }
                if before.contains(t) {
                    let i = choose|i: int| 0 <= i < before.len() && before[i] == t;
                    assert(after[i] == t);
                }
                if t == uuid@ {
                    assert(after[before.len() as int] == t);
                }
            }
            assert(after.to_set() =~= before.to_set().insert(uuid@));
        }
    } else {
        assert(before.to_set() =~= before.to_set().insert(uuid@));
    }
}

fn add_opt_uuid(set: &mut Vec<String>, uuid: Option<&String>)
    requires
        old(set).deep_view().no_duplicates(),
    ensures
        final(set).deep_view().no_duplicates(),
        final(set).deep_view().to_set() == old(set).deep_view().to_set().union(
            set_of(uuid.deep_view()),
        ),
{
    match uuid {
        Some(u) => {
            add_uuid(set, u);
            assert(set.deep_view().to_set() =~= old(set).deep_view().to_set().union(
                set_of(uuid.deep_view()),
            ));
        },
        None => {
            assert(set.deep_view().to_set() =~= old(set).deep_view().to_set().union(
                set_of(uuid.deep_view()),
            ));
        },
    }
}

fn is_in_bucket(c: &NmConnection, name: &String, t: &NmIfaceType) -> (b: bool)
    requires
        index_type(t@) == t@,
    ensures
        b == in_bucket(*c, name@, t@),
{
    let named = match c.iface_name() {
        Some(n) => string_eq(n, name),
        None => false,
    };
    let typed = match c.iface_type() {
        Some(ct) => ct.same_index(t),
        None => false,
    };
    named && typed
}

fn add_port_targets(set: &mut Vec<String>, all_nm_conns: &Vec<NmConnection>, c: &NmConnection)
    requires
        old(set).deep_view().no_duplicates(),
    ensures
        final(set).deep_view().no_duplicates(),
        final(set).deep_view().to_set() == old(set).deep_view().to_set().union(
            port_targets(all_nm_conns@, *c),
        ),
{
    let ghost before = set.deep_view().to_set();
    let is_port = match c.controller_type() {
        Some(t) => t.is_ovs_port(),
        None => false,
    };
    if is_port {
        if let Some(ctrl) = c.controller() {
            if is_uuid(ctrl.as_str()) {
                add_uuid(set, ctrl);
                assert(set.deep_view().to_set() =~= before.union(port_targets(all_nm_conns@, *c)));
            } else {
                let ghost f = |p: NmConnection| ovs_port_uuid(p, ctrl@);
                let port_type = NmIfaceType::OvsPort;
                let mut k: usize = 0;
                assert(set.deep_view().to_set() =~= before.union(
                    union_over(all_nm_conns@.take(0), f),
                ));
                while k < all_nm_conns.len()
                    invariant
                        k <= all_nm_conns.len(),
                        port_type@ == NmIfaceTypeView::OvsPort,
                        f == (|p: NmConnection| ovs_port_uuid(p, ctrl@)),
                        set.deep_view().no_duplicates(),
                        set.deep_view().to_set() == before.union(
                            union_over(all_nm_conns@.take(k as int), f),
                        ),
                    decreases all_nm_conns.len() - k,
                {
                    let p = &all_nm_conns[k];
                    proof {
                        lemma_union_step(all_nm_conns@, f, k as int);
                    }
                    let ghost prev = set.deep_view().to_set();
                    if is_in_bucket(p, ctrl, &port_type) {
                        add_opt_uuid(set, p.uuid());
                    }
                    assert(set.deep_view().to_set() =~= before.union(
                        union_over(all_nm_conns@.take(k as int + 1), f),
                    ));
                    k += 1;
                }
                assert(all_nm_conns@.take(all_nm_conns.len() as int) =~= all_nm_conns@);
            }
            return ;
        }
    }
    assert(set.deep_view().to_set() =~= before.union(port_targets(all_nm_conns@, *c)));
}

fn add_conn_targets(set: &mut Vec<String>, all_nm_conns: &Vec<NmConnection>, c: &NmConnection)
    requires
        old(set).deep_view().no_duplicates(),
    ensures
        final(set).deep_view().no_duplicates(),
        final(set).deep_view().to_set() == old(set).deep_view().to_set().union(
            conn_targets(all_nm_conns@, *c),
        ),
{
    let ghost before = set.deep_view().to_set();
    add_opt_uuid(set, c.uuid());
    // A port profile of Open vSwitch goes with its interface.
    add_port_targets(set, all_nm_conns, c);
    assert(set.deep_view().to_set() =~= before.union(conn_targets(all_nm_conns@, *c)));
}

fn is_mac_identified(m: &MergedInterface) -> (b: bool)
    ensures
        b == mac_identified(*m),
{
    match &m.current {
        Some(cur) => match cur.base_iface().identifier {
            Some(InterfaceIdentifier::MacAddress) => true,
            _ => false,
        },
        None => false,
    }
}

fn is_selected(m: &MergedInterface, nm_iface_type: &Option<NmIfaceType>, c: &NmConnection) -> (b:
    bool)
    requires
        nm_iface_type.deep_view() == nm_type(iface_base(m.merged).iface_type@),
        iface_base(m.merged).iface_type@ != InterfaceTypeView::Unknown ==> nm_iface_type is Some,
    ensures
        b == selected(*m, *c),
{
    let iface = &m.merged;
    let primary = if iface.iface_type().is_unknown() {
        match c.iface_name() {
            Some(n) => string_eq(n, iface.name()),
            None => false,
        }
    } else {
        match nm_iface_type {
            Some(t) => {
                // A kind under which profiles are indexed is never a veth.
                let named = match c.iface_name() {
                    Some(n) => string_eq(n, iface.name()),
                    None => false,
                };
                let typed = match c.iface_type() {
                    Some(ct) => ct.same_index(t) && !t.same(&NmIfaceType::Veth),
                    None => false,
                };
                named && typed
            },
            None => false,
        }
    };
    if primary {
        return true;
    }
    if !is_mac_identified(m) {
        return false;
    }
    let cur = match &m.current {
        Some(cur) => cur.base_iface(),
        None => {
            return false;
        },
    };
    // A MAC based interface may be removed by the name of its profile.
    let profile_named = match &cur.profile_name {
        Some(p) => string_eq(p, iface.name()),
        None => false,
    };
    if profile_named {
        let same_id = match c.id() {
            Some(id) => string_eq(id, iface.name()),
            None => false,
        };
        if same_id {
            return true;
        }
    }
    // A MAC based interface may be removed by its interface name.
    if string_eq(&cur.name, iface.name()) {
        if let Some(mac) = &cur.mac_address {
            if let Some(w) = &c.wired {
                if let Some(conn_mac) = &w.mac_address {
                    if eq_ignore_case(conn_mac.as_str(), mac.as_str()) {
                        return true;
                    }
                }
            }
        }
    }
    false
}

fn add_iface_targets(
    set: &mut Vec<String>,
    all_nm_conns: &Vec<NmConnection>,
    m: &MergedInterface,
) -> (r: Result<(), NmstateError>)
    requires
        old(set).deep_view().no_duplicates(),
    ensures
        final(set).deep_view().no_duplicates(),
        match r {
            Ok(_) => !unmapped(*m) && final(set).deep_view().to_set() == old(
                set,
            ).deep_view().to_set().union(removed_targets(all_nm_conns@, *m)),
            Err(e) => unmapped(*m) && e.kind == ErrorKind::NotImplementedError && e.msg@
                == no_nm_type_msg(iface_base(m.merged).iface_type@) && final(set).deep_view()
                == old(set).deep_view(),
        },
{
    let ghost before = set.deep_view().to_set();
    if !(m.is_changed() && m.merged.is_absent()) {
        assert(before =~= before.union(removed_targets(all_nm_conns@, *m)));
        return Ok(());
    }
    let iface = &m.merged;
    if iface.iface_type().same(&crate::base_iface::InterfaceType::Ipsec) {
        let ghost f = |c: NmConnection| ipsec_uuid(c, iface_base(m.merged).name@);
        let mut k: usize = 0;
        assert(before =~= before.union(union_over(all_nm_conns@.take(0), f)));
        while k < all_nm_conns.len()
            invariant
                k <= all_nm_conns.len(),
                f == (|c: NmConnection| ipsec_uuid(c, iface_base(m.merged).name@)),
                iface == &m.merged,
                set.deep_view().no_duplicates(),
                set.deep_view().to_set() == before.union(
                    union_over(all_nm_conns@.take(k as int), f),
                ),
            decreases all_nm_conns.len() - k,
        {
            let c = &all_nm_conns[k];
            proof {
                lemma_union_step(all_nm_conns@, f, k as int);
            }
            let is_vpn = match c.iface_type() {
                Some(t) => t.is_vpn(),
                None => false,
            };
            let named = match c.id() {
                Some(id) => string_eq(id, iface.name()),
                None => false,
            };
            if is_vpn && named {
                add_opt_uuid(set, c.uuid());
            }
            assert(set.deep_view().to_set() =~= before.union(
                union_over(all_nm_conns@.take(k as int + 1), f),
            ));
            k += 1;
        }
        assert(all_nm_conns@.take(all_nm_conns.len() as int) =~= all_nm_conns@);
        return Ok(());
    }
    // Without a kind, every profile for the name goes.
    let nm_iface_type: Option<NmIfaceType> = if iface.iface_type().is_unknown() {
        None
    } else {
        match iface_type_to_nm(iface.iface_type()) {
            Ok(t) => Some(t),
            Err(e) => {
                return Err(e);
            },
        }
    };
    let ghost f = |c: NmConnection| selected_targets(all_nm_conns@, *m, c);
    let mut k: usize = 0;
    assert(before =~= before.union(union_over(all_nm_conns@.take(0), f)));
    while k < all_nm_conns.len()
        invariant
            k <= all_nm_conns.len(),
            f == (|c: NmConnection| selected_targets(all_nm_conns@, *m, c)),
            nm_iface_type.deep_view() == nm_type(iface_base(m.merged).iface_type@),
            iface_base(m.merged).iface_type@ != InterfaceTypeView::Unknown ==> nm_iface_type
                is Some,
            set.deep_view().no_duplicates(),
            set.deep_view().to_set() == before.union(union_over(all_nm_conns@.take(k as int), f)),
        decreases all_nm_conns.len() - k,
    {
        let c = &all_nm_conns[k];
        proof {
            lemma_union_step(all_nm_conns@, f, k as int);
        }
        if is_selected(m, &nm_iface_type, c) {
            add_conn_targets(set, all_nm_conns, c);
        }
        assert(set.deep_view().to_set() =~= before.union(
            union_over(all_nm_conns@.take(k as int + 1), f),
        ));
        k += 1;
    }
    assert(all_nm_conns@.take(all_nm_conns.len() as int) =~= all_nm_conns@);
    Ok(())
}

/// All interfaces of a reconciliation: those of the kernel, then those of
/// user space.
pub open spec fn all_ifaces(s: MergedNetworkState) -> Seq<MergedInterface> {
    s.interfaces.kernel_ifaces@ + s.interfaces.user_ifaces@
}

fn add_targets_of(
    set: &mut Vec<String>,
    all_nm_conns: &Vec<NmConnection>,
    ifaces: &Vec<MergedInterface>,
) -> (r: Result<(), NmstateError>)
    requires
        old(set).deep_view().no_duplicates(),
    ensures
        final(set).deep_view().no_duplicates(),
        match r {
            Ok(_) => (forall|j: int| 0 <= j < ifaces@.len() ==> !unmapped(#[trigger] ifaces@[j]))
                && final(set).deep_view().to_set() == old(set).deep_view().to_set().union(
                delete_targets(all_nm_conns@, ifaces@),
            ),
            Err(e) => exists|j: int|
                {
                    &&& 0 <= j < ifaces@.len()
                    &&& unmapped(#[trigger] ifaces@[j])
                    &&& forall|i: int| 0 <= i < j ==> !unmapped(#[trigger] ifaces@[i])
                    &&& e.kind == ErrorKind::NotImplementedError
                    &&& e.msg@ == no_nm_type_msg(iface_base(ifaces@[j].merged).iface_type@)
                },
        },
{
    let ghost before = set.deep_view().to_set();
    let ghost f = |m: MergedInterface| removed_targets(all_nm_conns@, m);
    let mut i: usize = 0;
    assert(before =~= before.union(union_over(ifaces@.take(0), f)));
    while i < ifaces.len()
        invariant
            i <= ifaces.len(),
            f == (|m: MergedInterface| removed_targets(all_nm_conns@, m)),
            forall|j: int| 0 <= j < i ==> !unmapped(#[trigger] ifaces@[j]),
            set.deep_view().no_duplicates(),
            set.deep_view().to_set() == before.union(union_over(ifaces@.take(i as int), f)),
        decreases ifaces.len() - i,
    {
        proof {
            lemma_union_step(ifaces@, f, i as int);
        }
        match add_iface_targets(set, all_nm_conns, &ifaces[i]) {
            Ok(_) => {},
            Err(e) => {
                assert(unmapped(ifaces@[i as int]));
                return Err(e);
            },
        }
        assert(set.deep_view().to_set() =~= before.union(
            union_over(ifaces@.take(i as int + 1), f),
        ));
        i += 1;
    }
    assert(ifaces@.take(ifaces.len() as int) =~= ifaces@);
    Ok(())
}

/// The first interface that is removed and is of a kind that the backend has
/// no profiles for.
pub open spec fn first_unmapped(ifaces: Seq<MergedInterface>) -> Option<int> {
    first_index(ifaces, |m: MergedInterface| unmapped(m))
}

/// The UUIDs of the profiles to delete for the interfaces that a
/// reconciliation removes, each once. For an IPsec interface these are its
/// profiles by name; for any other the profiles for its name and kind, or
/// for its name alone where the kind is not known, and for an interface
/// found by its MAC address also the profiles of its profile name and those
/// bound to its MAC address. With a profile goes the port profile of Open
/// vSwitch that it names as controller. An interface of a kind that the
/// backend has no profiles for is refused, the first of them by its kind,
/// and nothing is to be deleted: a plan is never partly valid.
pub fn delete_ifaces(all_nm_conns: &Vec<NmConnection>, merged_state: &MergedNetworkState) -> (r:
    Result<Vec<String>, NmstateError>)
    ensures
        match r {
            Ok(uuids) => {
                &&& first_unmapped(all_ifaces(*merged_state)) is None
                &&& uuids.deep_view().no_duplicates()
                &&& uuids.deep_view().to_set() == delete_targets(
                    all_nm_conns@,
                    all_ifaces(*merged_state),
                )
            },
            Err(e) => {
                &&& first_unmapped(all_ifaces(*merged_state)) matches Some(j)
                &&& e.kind == ErrorKind::NotImplementedError
                &&& e.msg@ == no_nm_type_msg(
                    iface_base(all_ifaces(*merged_state)[j].merged).iface_type@,
                )
            },
        },
{
    let mut uuids_to_delete: Vec<String> = Vec::new();
    let kernel = &merged_state.interfaces.kernel_ifaces;
    let user = &merged_state.interfaces.user_ifaces;
    let ghost all = all_ifaces(*merged_state);
    let ghost p = |m: MergedInterface| unmapped(m);
    assert(uuids_to_delete.deep_view() =~= Seq::<Text>::empty());
    match add_targets_of(&mut uuids_to_delete, all_nm_conns, kernel) {
        Ok(_) => {},
        Err(e) => {
            proof {
                let j = choose|j: int|
                    {
                        &&& 0 <= j < kernel@.len()
                        &&& unmapped(#[trigger] kernel@[j])
                        &&& forall|i: int| 0 <= i < j ==> !unmapped(#[trigger] kernel@[i])
                        &&& e.msg@ == no_nm_type_msg(iface_base(kernel@[j].merged).iface_type@)
                    };
                assert(all[j] == kernel@[j]);
                assert forall|i: int| 0 <= i < j implies !p(#[trigger] all[i]) by {
                    assert(all[i] == kernel@[i]);
                }
                lemma_first_index(all, p, j);
            }
            return Err(e);
        },
    }
    match add_targets_of(&mut uuids_to_delete, all_nm_conns, user) {
        Ok(_) => {},
        Err(e) => {
            proof {
                let j = choose|j: int|
                    {
                        &&& 0 <= j < user@.len()
                        &&& unmapped(#[trigger] user@[j])
                        &&& forall|i: int| 0 <= i < j ==> !unmapped(#[trigger] user@[i])
                        &&& e.msg@ == no_nm_type_msg(iface_base(user@[j].merged).iface_type@)
                    };
                let w = kernel@.len() + j;
                assert(all[w] == user@[j]);
                assert forall|i: int| 0 <= i < w implies !p(#[trigger] all[i]) by {
                    if i < kernel@.len() {
                        assert(all[i] == kernel@[i]);
                    } else {
                        assert(all[i] == user@[i - kernel@.len()]);
                    }
                }
                lemma_first_index(all, p, w);
            }
            return Err(e);
        },
    }
    proof {
        assert forall|j: int| 0 <= j < all.len() implies !p(#[trigger] all[j]) by {
            if j < kernel@.len() {
                assert(all[j] == kernel@[j]);
            } else {
                assert(all[j] == user@[j - kernel@.len()]);
            }
        }
        lemma_first_index(all, p, 0);
        lemma_union_concat(
            kernel@,
            user@,
            |m: MergedInterface| removed_targets(all_nm_conns@, m),
        );
        assert(uuids_to_delete.deep_view().to_set() =~= delete_targets(all_nm_conns@, all));
    }
    Ok(uuids_to_delete)
}

/// What two lists contribute one after the other is what they contribute
/// together.
pub proof fn lemma_union_concat<A, B>(a: Seq<A>, b: Seq<A>, f: spec_fn(A) -> Set<B>)
    ensures
        union_over(a + b, f) == union_over(a, f).union(union_over(b, f)),
    decreases b.len(),
{
    if b.len() == 0 {
        assert(a + b =~= a);
        assert(union_over(a, f).union(union_over(b, f)) =~= union_over(a, f));
    } else {
        lemma_union_concat(a, b.drop_last(), f);
        assert((a + b).drop_last() =~= a + b.drop_last());
        assert((a + b).last() == b.last());
        assert(union_over(a + b, f) =~= union_over(a, f).union(union_over(b, f)));
    }
}

/// The UUID of a profile, where it is a port profile of Open vSwitch whose
/// controller was deleted.
pub open spec fn orphan_uuid(c: NmConnection, deleted: Seq<Text>) -> Set<Text> {
    if conn_iface_type(c) == Some(NmIfaceTypeView::OvsPort) && conn_controller(c) is Some
        && deleted.contains(conn_controller(c).unwrap()) {
        set_of(conn_uuid(c))
    } else {
        Set::empty()
    }
}

/// The UUIDs of the port profiles of Open vSwitch that name a deleted
/// profile as their controller and were not deleted themselves.
pub open spec fn orphan_ports(all: Seq<NmConnection>, deleted: Seq<Text>) -> Set<Text> {
    union_over(all, |c: NmConnection| orphan_uuid(c, deleted)).difference(deleted.to_set())
}

/// The UUIDs of the port profiles of Open vSwitch that still name a deleted
/// profile as their controller: they are to be deleted too. Each stands
/// once, and none that was deleted already.
pub fn delete_orphan_ports(all_nm_conns: &Vec<NmConnection>, uuids_deleted: &Vec<String>) -> (uuids:
    Vec<String>)
    ensures
        uuids.deep_view().no_duplicates(),
        uuids.deep_view().to_set() == orphan_ports(all_nm_conns@, uuids_deleted.deep_view()),
{
    let ghost deleted = uuids_deleted.deep_view();
    let ghost f = |c: NmConnection| orphan_uuid(c, deleted);
    let mut uuids_to_delete: Vec<String> = Vec::new();
    let mut k: usize = 0;
    proof {
        assert(uuids_to_delete.deep_view() =~= Seq::<Text>::empty());
        assert(uuids_to_delete.deep_view().to_set() =~= union_over(
            all_nm_conns@.take(0),
            f,
        ).difference(deleted.to_set()));
    }
    while k < all_nm_conns.len()
        invariant
            k <= all_nm_conns.len(),
            deleted == uuids_deleted.deep_view(),
            f == (|c: NmConnection| orphan_uuid(c, deleted)),
            uuids_to_delete.deep_view().no_duplicates(),
            uuids_to_delete.deep_view().to_set() == union_over(
                all_nm_conns@.take(k as int),
                f,
            ).difference(deleted.to_set()),
        decreases all_nm_conns.len() - k,
    {
        let nm_conn = &all_nm_conns[k];
        proof {
            lemma_union_step(all_nm_conns@, f, k as int);
        }
        let is_port = match nm_conn.iface_type() {
            Some(t) => t.is_ovs_port(),
            None => false,
        };
        if is_port {
            if let Some(ctrl_uuid) = nm_conn.controller() {
                if holds_text(uuids_deleted, ctrl_uuid) {
                    if let Some(uuid) = nm_conn.uuid() {
                        if !holds_text(uuids_deleted, uuid) {
                            add_uuid(&mut uuids_to_delete, uuid);
                        }
                    }
                }
            }
        }
        assert(uuids_to_delete.deep_view().to_set() =~= union_over(
            all_nm_conns@.take(k as int + 1),
            f,
        ).difference(deleted.to_set()));
        k += 1;
    }
    assert(all_nm_conns@.take(all_nm_conns.len() as int) =~= all_nm_conns@);
    uuids_to_delete
}

/// Whether the device of an interface may remain after its profiles are
/// gone: the interface is virtual and no internal interface of Open vSwitch,
/// and the reconciliation removes it or takes it down.
pub open spec fn may_remain(m: MergedInterface) -> bool {
    let b = iface_base(m.merged);
    b.iface_type@ != InterfaceTypeView::OvsInterface && m.for_apply is Some && (b.state
        == InterfaceState::Absent || b.state == InterfaceState::Down) && kind_virtual(
        iface_kind(m.merged),
    )
}

/// Whether a device is indexed under a name and a kind.
pub open spec fn dev_in_bucket(d: NmDevice, name: Text, t: NmIfaceTypeView) -> bool {
    d.name@ == name && index_type(d.iface_type@) == t
}

/// The path of the device of an interface that may remain: that of the last
/// device of its name and kind.
pub open spec fn remaining_path(devs: Seq<NmDevice>, m: MergedInterface) -> Seq<Text> {
    let b = iface_base(m.merged);
    if may_remain(m) && nm_type(b.iface_type@) is Some {
        match crate::fold::last_index(
            devs,
            |d: NmDevice| dev_in_bucket(d, b.name@, nm_type(b.iface_type@).unwrap()),
        ) {
            Some(k) => seq![devs[k].obj_path@],
            None => Seq::empty(),
        }
    } else {
        Seq::empty()
    }
}

/// Whether an interface that may remain is of a kind that the backend has no
/// devices for.
pub open spec fn unmapped_device(m: MergedInterface) -> bool {
    may_remain(m) && nm_type(iface_base(m.merged).iface_type@) is None
}

/// The first interface that may remain and is of a kind that the backend
/// has no devices for.
pub open spec fn first_unmapped_device(ifaces: Seq<MergedInterface>) -> Option<int> {
    first_index(ifaces, |m: MergedInterface| unmapped_device(m))
}

fn last_dev_index(nm_devs: &Vec<NmDevice>, name: &String, t: &NmIfaceType) -> (r: Option<usize>)
    ensures
        match r {
            Some(k) => k < nm_devs@.len() && crate::fold::last_index(
                nm_devs@,
                |d: NmDevice| dev_in_bucket(d, name@, t@),
            ) == Some(k as int),
            None => crate::fold::last_index(nm_devs@, |d: NmDevice| dev_in_bucket(d, name@, t@))
                is None,
        },
{
    let ghost p = |d: NmDevice| dev_in_bucket(d, name@, t@);
    let veth = t.same(&NmIfaceType::Veth);
    let mut k: usize = nm_devs.len();
    while k > 0
        invariant
            k <= nm_devs.len(),
            p == (|d: NmDevice| dev_in_bucket(d, name@, t@)),
            veth == (t@ == NmIfaceTypeView::Veth),
            forall|j: int| k <= j < nm_devs@.len() ==> !p(#[trigger] nm_devs@[j]),
        decreases k,
    {
        k -= 1;
        let d = &nm_devs[k];
        if string_eq(&d.name, name) && d.iface_type.same_index(t) && !veth {
            proof {
                assert(p(nm_devs@[k as int]));
                crate::fold::lemma_last_index(nm_devs@, p, k as int);
            }
            return Some(k);
        }
    }
    proof {
        crate::fold::lemma_last_index(nm_devs@, p, 0);
    }
    None
}

/// The paths of the devices to delete after the profiles are gone, in the
/// order of the interfaces of the kernel. An interface that other tools
/// created does not go with its profiles: where the reconciliation removes a
/// virtual interface or takes it down, its device is deleted. An interface
/// of a kind that the backend has no devices for is refused.
pub fn delete_remain_virtual_interface_as_desired(
    nm_devs: &Vec<NmDevice>,
    merged_state: &MergedNetworkState,
) -> (r: Result<Vec<String>, NmstateError>)
    ensures
        match r {
            Ok(paths) => {
                &&& first_unmapped_device(merged_state.interfaces.kernel_ifaces@) is None
                &&& paths.deep_view() == collect_seq(
                    merged_state.interfaces.kernel_ifaces@,
                    |m: MergedInterface| remaining_path(nm_devs@, m),
                )
            },
            Err(e) => {
                &&& first_unmapped_device(merged_state.interfaces.kernel_ifaces@) matches Some(j)
                &&& e.kind == ErrorKind::NotImplementedError
                &&& e.msg@ == no_nm_type_msg(
                    iface_base(merged_state.interfaces.kernel_ifaces@[j].merged).iface_type@,
                )
            },
        },
{
    let ifaces = &merged_state.interfaces.kernel_ifaces;
    let ghost f = |m: MergedInterface| remaining_path(nm_devs@, m);
    let mut paths: Vec<String> = Vec::new();
    let mut i: usize = 0;
    assert(paths.deep_view() =~= collect_seq(ifaces@.take(0), f));
    while i < ifaces.len()
        invariant
            i <= ifaces.len(),
            ifaces == &merged_state.interfaces.kernel_ifaces,
            f == (|m: MergedInterface| remaining_path(nm_devs@, m)),
            forall|j: int| 0 <= j < i ==> !unmapped_device(#[trigger] ifaces@[j]),
            paths.deep_view() == collect_seq(ifaces@.take(i as int), f),
        decreases ifaces.len() - i,
    {
        let m = &ifaces[i];
        let iface = &m.merged;
        proof {
            lemma_collect_step(ifaces@, f, i as int);
        }
        let ghost before = paths.deep_view();
        let mut pushed = false;
        if !iface.iface_type().same(&crate::base_iface::InterfaceType::OvsInterface)
            && m.is_changed() && (iface.is_absent() || iface.is_down()) && iface.is_virtual() {
            let t = match iface_type_to_nm(iface.iface_type()) {
                Ok(t) => t,
                Err(e) => {
                    proof {
                        let p = |m: MergedInterface| unmapped_device(m);
                        assert(p(ifaces@[i as int]));
                        lemma_first_index(ifaces@, p, i as int);
                    }
                    return Err(e);
                },
            };
            if let Some(k) = last_dev_index(nm_devs, iface.name(), &t) {
                // The deletion of the profile may still be going on; what is
                // left is found when the state is verified.
                paths.push(nm_devs[k].obj_path.clone());
                pushed = true;
                assert(paths.deep_view() =~= before + seq![nm_devs@[k as int].obj_path@]);
            }
        }
        if !pushed {
            assert(paths.deep_view() =~= before + Seq::<Text>::empty());
        }
        i += 1;
    }
    assert(ifaces@.take(ifaces.len() as int) =~= ifaces@);
    proof {
        lemma_first_index(ifaces@, |m: MergedInterface| unmapped_device(m), 0);
    }
    Ok(paths)
}

/// The oldest minor version of the profile backend that is supported.
pub const MIN_NM_MINOR_VERSION: i32 = 40;

/// Whether a version of the profile backend, given by its numbers, is one
/// that this library does not support: it has a major and a minor number,
/// and the major number is below 1 or the minor number below 40.
pub open spec fn version_unsupported(versions: Seq<i32>) -> bool {
    versions.len() >= 2 && (versions[0] < 1 || versions[1] < MIN_NM_MINOR_VERSION)
}

/// Whether a version of the profile backend, given by its numbers, is one
/// that this library does not support.
pub fn nm_version_unsupported(versions: &Vec<i32>) -> (b: bool)
    ensures
        b == version_unsupported(versions@),
{
    if versions.len() >= 2 {
        versions[0] < 1 || versions[1] < MIN_NM_MINOR_VERSION
    } else {
        false
    }
}

/// The numbers of a version: its pieces between the dots, each read as a
/// number, a piece that is no number counting as zero.
pub open spec fn version_numbers(version: Text) -> Seq<i32> {
    crate::text::dot_fields(version).map_values(
        |f: Text|
            match crate::text::parsed_i32(f) {
                Some(n) => n,
                None => 0,
            },
    )
}

/// Whether the version that the profile backend reports is one that this
/// library does not support.
pub fn check_nm_version(version: &str) -> (unsupported: bool)
    ensures
        unsupported == version_unsupported(version_numbers(version@)),
{
    let fields = crate::text::split_dots(version);
    let mut versions: Vec<i32> = Vec::new();
    let mut i: usize = 0;
    while i < fields.len()
        invariant
            i <= fields.len(),
            fields.deep_view() == crate::text::dot_fields(version@),
            versions@ =~= version_numbers(version@).take(i as int),
        decreases fields.len() - i,
    {
        let n = match crate::text::parse_i32(fields[i].as_str()) {
            Some(n) => n,
            None => 0,
        };
        assert(fields.deep_view()[i as int] == fields[i as int]@);
        versions.push(n);
        i += 1;
    }
    assert(versions@ =~= version_numbers(version@));
    nm_version_unsupported(&versions)
}

/// An active profile whose new form has another VRF table is taken down
/// before the new form is stored and activated.
pub proof fn lemma_vrf_table_change_deactivates(
    new: NmConnection,
    active: Seq<NmConnection>,
    k: int,
    pvid_bridges: Seq<Text>,
    queue_ports: Seq<Text>,
)
    requires
        conn_uuid(new) is Some,
        first_active(active, conn_uuid(new).unwrap()) == Some(k),
        crate::nm::reapply::vrf_table_id_changed(new, active[k]),
    ensures
        deactivated_for(new, active, pvid_bridges, queue_ports) == seq![active[k]],
{
}

/// A profile of which nothing asks for more is applied in place: no active
/// profile is taken down for it.
pub proof fn lemma_unrelated_change_is_applied_in_place(
    new: NmConnection,
    active: Seq<NmConnection>,
    pvid_bridges: Seq<Text>,
    queue_ports: Seq<Text>,
)
    requires
        forall|k: int|
            0 <= k < active.len() ==> !needs_deactivation(
                new,
                #[trigger] active[k],
                pvid_bridges,
                queue_ports,
            ),
    ensures
        deactivated_for(new, active, pvid_bridges, queue_ports).len() == 0,
{
    if conn_uuid(new) is Some {
        let p = |c: NmConnection| conn_uuid(c) == Some(conn_uuid(new).unwrap());
        crate::fold::lemma_first_index_found(active, p);
    }
}

/// With an interface that is removed go its profile and the port profile of
/// Open vSwitch that the profile names as its controller: both are among
/// the profiles to delete, where each UUID stands once.
pub proof fn lemma_port_profile_goes_with_its_interface(
    all: Seq<NmConnection>,
    ifaces: Seq<MergedInterface>,
    i: int,
    k: int,
)
    requires
        0 <= i < ifaces.len(),
        0 <= k < all.len(),
        to_delete(ifaces[i]),
        iface_base(ifaces[i].merged).iface_type@ != InterfaceTypeView::Ipsec,
        selected(ifaces[i], all[k]),
        conn_uuid(all[k]) is Some,
        conn_controller_type(all[k]) == Some(NmIfaceTypeView::OvsPort),
        conn_controller(all[k]) is Some,
        is_uuid_text(conn_controller(all[k]).unwrap()),
    ensures
        delete_targets(all, ifaces).contains(conn_uuid(all[k]).unwrap()),
        delete_targets(all, ifaces).contains(conn_controller(all[k]).unwrap()),
{
    let m = ifaces[i];
    let c = all[k];
    let per_conn = |c: NmConnection| selected_targets(all, m, c);
    let per_iface = |m: MergedInterface| removed_targets(all, m);
    let u = conn_uuid(c).unwrap();
    let ctrl = conn_controller(c).unwrap();
    assert(per_conn(all[k]).contains(u));
    assert(per_conn(all[k]).contains(ctrl));
    crate::fold::lemma_union_over_contains(all, per_conn, u);
    crate::fold::lemma_union_over_contains(all, per_conn, ctrl);
    assert(per_iface(ifaces[i]).contains(u));
    assert(per_iface(ifaces[i]).contains(ctrl));
    crate::fold::lemma_union_over_contains(ifaces, per_iface, u);
    crate::fold::lemma_union_over_contains(ifaces, per_iface, ctrl);
}

} // verus!
