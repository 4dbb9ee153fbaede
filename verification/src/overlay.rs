//! Overlaying one description of an interface onto another.
//!
//! An attribute is taken from the overlaid description exactly when that
//! description set it; an attribute it left unset keeps its value, and one it
//! set to nothing is cleared.

use vstd::prelude::*;
use crate::base_iface::{BaseInterface, BaseInterfaceView, InterfaceIp, InterfaceIpView, InterfaceTypeView};
use crate::names::{has_name, merge_names, union_names, lemma_union_names_absorbs};
use crate::text::{clone_opt_string, clone_opt_strings};

verus! {

/// `x` overlaid with `y`, for the IP configuration of one address family.
pub open spec fn ip_update(x: InterfaceIpView, y: InterfaceIpView) -> InterfaceIpView {
    InterfaceIpView {
        enabled: if y.touched.contains("enabled"@) {
            y.enabled
        } else {
            x.enabled
        },
        dhcp: if y.touched.contains("dhcp"@) {
            y.dhcp
        } else {
            x.dhcp
        },
        autoconf: if y.touched.contains("autoconf"@) {
            y.autoconf
        } else {
            x.autoconf
        },
        addresses: if y.touched.contains("address"@) {
            y.addresses
        } else {
            x.addresses
        },
        touched: x.touched.union(y.touched),
    }
}

/// The IP block after an overlay that set it: an absent block on the overlaid
/// side changes nothing, a block meeting no block replaces it, and two blocks
/// are overlaid attribute by attribute.
pub open spec fn ip_overlay(x: Option<InterfaceIpView>, y: Option<InterfaceIpView>) -> Option<
    InterfaceIpView,
> {
    match y {
        None => x,
        Some(b) => match x {
            None => Some(b),
            Some(a) => Some(ip_update(a, b)),
        },
    }
}

/// `x` overlaid with `y`. The kind is taken over only where `y` knows it.
/// The identifier, the profile name and the dispatch scripts are never taken
/// over.
pub open spec fn base_update(x: BaseInterfaceView, y: BaseInterfaceView) -> BaseInterfaceView {
    BaseInterfaceView {
        name: if y.touched.contains("name"@) {
            y.name
        } else {
            x.name
        },
        touched: x.touched.union(y.touched),
        description: if y.touched.contains("description"@) {
            y.description
        } else {
            x.description
        },
        iface_type: if y.touched.contains("iface_type"@) && y.iface_type
            != InterfaceTypeView::Unknown {
            y.iface_type
        } else {
            x.iface_type
        },
        state: if y.touched.contains("state"@) {
            y.state
        } else {
            x.state
        },
        identifier: x.identifier,
        profile_name: x.profile_name,
        mac_address: if y.touched.contains("mac_address"@) {
            y.mac_address
        } else {
            x.mac_address
        },
        permanent_mac_address: if y.touched.contains("permanent_mac_address"@) {
            y.permanent_mac_address
        } else {
            x.permanent_mac_address
        },
        mtu: if y.touched.contains("mtu"@) {
            y.mtu
        } else {
            x.mtu
        },
        min_mtu: if y.touched.contains("min_mtu"@) {
            y.min_mtu
        } else {
            x.min_mtu
        },
        max_mtu: if y.touched.contains("max_mtu"@) {
            y.max_mtu
        } else {
            x.max_mtu
        },
        wait_ip: if y.touched.contains("wait_ip"@) {
            y.wait_ip
        } else {
            x.wait_ip
        },
        ipv4: if y.touched.contains("ipv4"@) {
            ip_overlay(x.ipv4, y.ipv4)
        } else {
            x.ipv4
        },
        ipv6: if y.touched.contains("ipv6"@) {
            ip_overlay(x.ipv6, y.ipv6)
        } else {
            x.ipv6
        },
        mptcp: if y.touched.contains("mptcp"@) {
            y.mptcp
        } else {
            x.mptcp
        },
        controller: if y.touched.contains("controller"@) {
            y.controller
        } else {
            x.controller
        },
        controller_type: if y.touched.contains("controller_type"@) {
            y.controller_type
        } else {
            x.controller_type
        },
        accept_all_mac_addresses: if y.touched.contains("accept_all_mac_addresses"@) {
            y.accept_all_mac_addresses
        } else {
            x.accept_all_mac_addresses
        },
        ovsdb: if y.touched.contains("ovsdb"@) {
            y.ovsdb
        } else {
            x.ovsdb
        },
        ieee8021x: if y.touched.contains("ieee8021x"@) {
            y.ieee8021x
        } else {
            x.ieee8021x
        },
        lldp: if y.touched.contains("lldp"@) {
            y.lldp
        } else {
            x.lldp
        },
        ethtool: if y.touched.contains("ethtool"@) {
            y.ethtool
        } else {
            x.ethtool
        },
        dispatch: x.dispatch,
    }
}

impl InterfaceIp {
    /// Overlays `other` onto `self`: every attribute that `other` set is taken
    /// from it, and the names it set are added to those of `self`, each once.
    pub fn update(&mut self, other: &InterfaceIp)
        ensures
            final(self)@ == ip_update(old(self)@, other@),
            final(self).prop_list.deep_view() == union_names(
                old(self).prop_list.deep_view(),
                other.prop_list.deep_view(),
            ),
    {
        if has_name(&other.prop_list, "enabled") {
            self.enabled = other.enabled;
        }
        if has_name(&other.prop_list, "dhcp") {
            self.dhcp = other.dhcp;
        }
        if has_name(&other.prop_list, "autoconf") {
            self.autoconf = other.autoconf;
        }
        if has_name(&other.prop_list, "address") {
            self.addresses = clone_opt_strings(&other.addresses);
        }
        merge_names(&mut self.prop_list, &other.prop_list);
        assert(self@ =~= ip_update(old(self)@, other@));
    }
}

impl BaseInterface {
    fn update_identity(&mut self, other: &BaseInterface)
        ensures
            final(self)@.name == base_update(old(self)@, other@).name,
            final(self)@.description == base_update(old(self)@, other@).description,
            final(self)@.iface_type == base_update(old(self)@, other@).iface_type,
            final(self)@.state == base_update(old(self)@, other@).state,
            final(self)@.mtu == base_update(old(self)@, other@).mtu,
            final(self)@.min_mtu == base_update(old(self)@, other@).min_mtu,
            final(self)@.max_mtu == base_update(old(self)@, other@).max_mtu,
            final(self)@.identifier == old(self)@.identifier,
            final(self)@.profile_name == old(self)@.profile_name,
            final(self)@.mac_address == old(self)@.mac_address,
            final(self)@.permanent_mac_address == old(self)@.permanent_mac_address,
            final(self)@.wait_ip == old(self)@.wait_ip,
            final(self)@.ipv4 == old(self)@.ipv4,
            final(self)@.ipv6 == old(self)@.ipv6,
            final(self)@.mptcp == old(self)@.mptcp,
            final(self)@.controller == old(self)@.controller,
            final(self)@.controller_type == old(self)@.controller_type,
            final(self)@.accept_all_mac_addresses == old(self)@.accept_all_mac_addresses,
            final(self)@.ovsdb == old(self)@.ovsdb,
            final(self)@.ieee8021x == old(self)@.ieee8021x,
            final(self)@.lldp == old(self)@.lldp,
            final(self)@.ethtool == old(self)@.ethtool,
            final(self)@.dispatch == old(self)@.dispatch,
            final(self).prop_list == old(self).prop_list,
    {
        if has_name(&other.prop_list, "name") {
            self.name = other.name.clone();
        }
        if has_name(&other.prop_list, "description") {
            self.description = clone_opt_string(&other.description);
        }
        if has_name(&other.prop_list, "iface_type") && !other.iface_type.is_unknown() {
            self.iface_type = other.iface_type.clone();
        }
        if has_name(&other.prop_list, "state") {
            self.state = other.state;
        }
        if has_name(&other.prop_list, "mtu") {
            self.mtu = other.mtu;
        }
        if has_name(&other.prop_list, "min_mtu") {
            self.min_mtu = other.min_mtu;
        }
        if has_name(&other.prop_list, "max_mtu") {
            self.max_mtu = other.max_mtu;
        }
    }

    fn update_link(&mut self, other: &BaseInterface)
        ensures
            final(self)@.mac_address == base_update(old(self)@, other@).mac_address,
            final(self)@.permanent_mac_address == base_update(old(self)@, other@).permanent_mac_address,
            final(self)@.controller == base_update(old(self)@, other@).controller,
            final(self)@.controller_type == base_update(old(self)@, other@).controller_type,
            final(self)@.accept_all_mac_addresses == base_update(old(self)@, other@).accept_all_mac_addresses,
            final(self)@.wait_ip == base_update(old(self)@, other@).wait_ip,
            final(self)@.name == old(self)@.name,
            final(self)@.description == old(self)@.description,
            final(self)@.iface_type == old(self)@.iface_type,
            final(self)@.state == old(self)@.state,
            final(self)@.identifier == old(self)@.identifier,
            final(self)@.profile_name == old(self)@.profile_name,
            final(self)@.mtu == old(self)@.mtu,
            final(self)@.min_mtu == old(self)@.min_mtu,
            final(self)@.max_mtu == old(self)@.max_mtu,
            final(self)@.ipv4 == old(self)@.ipv4,
            final(self)@.ipv6 == old(self)@.ipv6,
            final(self)@.mptcp == old(self)@.mptcp,
            final(self)@.ovsdb == old(self)@.ovsdb,
            final(self)@.ieee8021x == old(self)@.ieee8021x,
            final(self)@.lldp == old(self)@.lldp,
            final(self)@.ethtool == old(self)@.ethtool,
            final(self)@.dispatch == old(self)@.dispatch,
            final(self).prop_list == old(self).prop_list,
    {
        if has_name(&other.prop_list, "mac_address") {
            self.mac_address = clone_opt_string(&other.mac_address);
        }
        if has_name(&other.prop_list, "permanent_mac_address") {
            self.permanent_mac_address = clone_opt_string(&other.permanent_mac_address);
        }
        if has_name(&other.prop_list, "controller") {
            self.controller = clone_opt_string(&other.controller);
        }
        if has_name(&other.prop_list, "controller_type") {
            self.controller_type = other.controller_type.clone();
        }
        if has_name(&other.prop_list, "accept_all_mac_addresses") {
            self.accept_all_mac_addresses = other.accept_all_mac_addresses;
        }
        if has_name(&other.prop_list, "wait_ip") {
            self.wait_ip = other.wait_ip;
        }
    }

    fn update_blocks(&mut self, other: &BaseInterface)
        ensures
            final(self)@.ovsdb == base_update(old(self)@, other@).ovsdb,
            final(self)@.ieee8021x == base_update(old(self)@, other@).ieee8021x,
            final(self)@.lldp == base_update(old(self)@, other@).lldp,
            final(self)@.ethtool == base_update(old(self)@, other@).ethtool,
            final(self)@.mptcp == base_update(old(self)@, other@).mptcp,
            final(self)@.name == old(self)@.name,
            final(self)@.description == old(self)@.description,
            final(self)@.iface_type == old(self)@.iface_type,
            final(self)@.state == old(self)@.state,
            final(self)@.identifier == old(self)@.identifier,
            final(self)@.profile_name == old(self)@.profile_name,
            final(self)@.mac_address == old(self)@.mac_address,
            final(self)@.permanent_mac_address == old(self)@.permanent_mac_address,
            final(self)@.mtu == old(self)@.mtu,
            final(self)@.min_mtu == old(self)@.min_mtu,
            final(self)@.max_mtu == old(self)@.max_mtu,
            final(self)@.wait_ip == old(self)@.wait_ip,
            final(self)@.ipv4 == old(self)@.ipv4,
            final(self)@.ipv6 == old(self)@.ipv6,
            final(self)@.controller == old(self)@.controller,
            final(self)@.controller_type == old(self)@.controller_type,
            final(self)@.accept_all_mac_addresses == old(self)@.accept_all_mac_addresses,
            final(self)@.dispatch == old(self)@.dispatch,
            final(self).prop_list == old(self).prop_list,
    {
        if has_name(&other.prop_list, "ovsdb") {
            self.ovsdb = other.ovsdb.clone();
        }
        if has_name(&other.prop_list, "ieee8021x") {
            self.ieee8021x = other.ieee8021x.clone();
        }
        if has_name(&other.prop_list, "lldp") {
            self.lldp = other.lldp.clone();
        }
        if has_name(&other.prop_list, "ethtool") {
            self.ethtool = other.ethtool;
        }
        if has_name(&other.prop_list, "mptcp") {
            self.mptcp = other.mptcp.clone();
        }
    }

    fn update_ip(&mut self, other: &BaseInterface)
        ensures
            final(self)@.ipv4 == base_update(old(self)@, other@).ipv4,
            final(self)@.ipv6 == base_update(old(self)@, other@).ipv6,
            final(self)@.name == old(self)@.name,
            final(self)@.description == old(self)@.description,
            final(self)@.iface_type == old(self)@.iface_type,
            final(self)@.state == old(self)@.state,
            final(self)@.identifier == old(self)@.identifier,
            final(self)@.profile_name == old(self)@.profile_name,
            final(self)@.mac_address == old(self)@.mac_address,
            final(self)@.permanent_mac_address == old(self)@.permanent_mac_address,
            final(self)@.mtu == old(self)@.mtu,
            final(self)@.min_mtu == old(self)@.min_mtu,
            final(self)@.max_mtu == old(self)@.max_mtu,
            final(self)@.wait_ip == old(self)@.wait_ip,
            final(self)@.mptcp == old(self)@.mptcp,
            final(self)@.controller == old(self)@.controller,
            final(self)@.controller_type == old(self)@.controller_type,
            final(self)@.accept_all_mac_addresses == old(self)@.accept_all_mac_addresses,
            final(self)@.ovsdb == old(self)@.ovsdb,
            final(self)@.ieee8021x == old(self)@.ieee8021x,
            final(self)@.lldp == old(self)@.lldp,
            final(self)@.ethtool == old(self)@.ethtool,
            final(self)@.dispatch == old(self)@.dispatch,
            final(self).prop_list == old(self).prop_list,
    {
        if has_name(&other.prop_list, "ipv4") {
            if let Some(other_ipv4) = &other.ipv4 {
                let merged = match &self.ipv4 {
                    Some(self_ipv4) => {
                        let mut block = self_ipv4.clone();
                        block.update(other_ipv4);
                        block
                    },
                    None => other_ipv4.clone(),
                };
                self.ipv4 = Some(merged);
            }
        }
        if has_name(&other.prop_list, "ipv6") {
            if let Some(other_ipv6) = &other.ipv6 {
                let merged = match &self.ipv6 {
                    Some(self_ipv6) => {
                        let mut block = self_ipv6.clone();
                        block.update(other_ipv6);
                        block
                    },
                    None => other_ipv6.clone(),
                };
                self.ipv6 = Some(merged);
            }
        }
    }

    /// Overlays `other` onto `self`: every attribute that `other` set is taken
    /// from it, the kind only where `other` knows it, an IP block by its own
    /// overlay where both sides have one. The names that `other` set are
    /// added to those of `self`, each once. Nothing fails: what `other` did
    /// not set stays as it is.
    pub fn update(&mut self, other: &BaseInterface)
        ensures
            final(self)@ == base_update(old(self)@, other@),
            final(self).prop_list.deep_view() == union_names(
                old(self).prop_list.deep_view(),
                other.prop_list.deep_view(),
            ),
    {
        self.update_identity(other);
        self.update_link(other);
        self.update_blocks(other);
        self.update_ip(other);
        merge_names(&mut self.prop_list, &other.prop_list);
        assert(self@ =~= base_update(old(self)@, other@));
    }
}

/// The merged form of an interface: the current one overlaid with the
/// desired one.
pub fn merge(current: &BaseInterface, desired: &BaseInterface) -> (merged: BaseInterface)
    ensures
        merged@ == base_update(current@, desired@),
        merged.prop_list.deep_view() == union_names(
            current.prop_list.deep_view(),
            desired.prop_list.deep_view(),
        ),
{
    let mut merged = current.clone();
    merged.update(desired);
    merged
}

/// Overlaying the same description a second time changes nothing.
pub proof fn lemma_ip_update_idempotent(x: InterfaceIpView, y: InterfaceIpView)
    ensures
        ip_update(ip_update(x, y), y) == ip_update(x, y),
{
    assert(ip_update(ip_update(x, y), y) =~= ip_update(x, y));
}

/// Overlaying a description of an interface a second time changes nothing:
/// the set attributes form a set, and an attribute copied twice is the same
/// attribute.
pub proof fn lemma_update_idempotent(x: BaseInterfaceView, y: BaseInterfaceView)
    ensures
        base_update(base_update(x, y), y) == base_update(x, y),
{
    let once = base_update(x, y);
    let twice = base_update(once, y);
    assert(twice.touched =~= once.touched);
    assert(twice.ipv4 == once.ipv4) by {
        if y.touched.contains("ipv4"@) && y.ipv4 is Some {
            let b = y.ipv4.unwrap();
            if x.ipv4 is Some {
                lemma_ip_update_idempotent(x.ipv4.unwrap(), b);
            } else {
                assert(ip_update(b, b) =~= b);
            }
        }
    }
    assert(twice.ipv6 == once.ipv6) by {
        if y.touched.contains("ipv6"@) && y.ipv6 is Some {
            let b = y.ipv6.unwrap();
            if x.ipv6 is Some {
                lemma_ip_update_idempotent(x.ipv6.unwrap(), b);
            } else {
                assert(ip_update(b, b) =~= b);
            }
        }
    }
    assert(twice =~= once);
}

/// The list of set names, too, is the same after a second overlay of the same
/// description.
pub proof fn lemma_update_names_idempotent(a: Seq<Seq<char>>, b: Seq<Seq<char>>)
    ensures
        union_names(union_names(a, b), b) == union_names(a, b),
{
    let once = union_names(a, b);
    crate::names::lemma_union_names_set(a, b);
    assert forall|j: int| 0 <= j < b.len() implies once.contains(b[j]) by {
        assert(b.to_set().contains(b[j]));
        assert(once.to_set().contains(b[j]));
    }
    lemma_union_names_absorbs(once, b);
}

/// After two overlays, what is set is what was set to begin with and what
/// either description set: the same as after one overlay with the two
/// descriptions combined.
pub proof fn lemma_touched_is_union(x: BaseInterfaceView, a: BaseInterfaceView, b: BaseInterfaceView)
    ensures
        base_update(base_update(x, a), b).touched == x.touched.union(a.touched).union(b.touched),
        base_update(base_update(x, a), b).touched == base_update(x, base_update(a, b)).touched,
{
    assert(base_update(base_update(x, a), b).touched =~= base_update(
        x,
        base_update(a, b),
    ).touched);
}

/// Two descriptions that set no attribute in common can be overlaid in either
/// order.
pub proof fn lemma_update_commutes_when_disjoint(
    x: BaseInterfaceView,
    y: BaseInterfaceView,
    z: BaseInterfaceView,
)
    requires
        y.touched.disjoint(z.touched),
    ensures
        base_update(base_update(x, y), z) == base_update(base_update(x, z), y),
{
    let yz = base_update(base_update(x, y), z);
    let zy = base_update(base_update(x, z), y);
    assert(yz.touched =~= zy.touched);
    assert(yz.name == zy.name);
    assert(yz.description == zy.description);
    assert(yz.iface_type == zy.iface_type);
    assert(yz.state == zy.state);
    assert(yz.identifier == zy.identifier);
    assert(yz.profile_name == zy.profile_name);
    assert(yz.mac_address == zy.mac_address);
    assert(yz.permanent_mac_address == zy.permanent_mac_address);
    assert(yz.mtu == zy.mtu);
    assert(yz.min_mtu == zy.min_mtu);
    assert(yz.max_mtu == zy.max_mtu);
    assert(yz.wait_ip == zy.wait_ip);
    assert(yz.ipv4 == zy.ipv4);
    assert(yz.ipv6 == zy.ipv6);
    assert(yz.mptcp == zy.mptcp);
    assert(yz.controller == zy.controller);
    assert(yz.controller_type == zy.controller_type);
    assert(yz.accept_all_mac_addresses == zy.accept_all_mac_addresses);
    assert(yz.ovsdb == zy.ovsdb);
    assert(yz.ieee8021x == zy.ieee8021x);
    assert(yz.lldp == zy.lldp);
    assert(yz.ethtool == zy.ethtool);
    assert(yz.dispatch == zy.dispatch);
    assert(yz =~= zy);
}

} // verus!
