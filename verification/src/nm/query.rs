//! Reading single attributes of an interface out of a profile.

use vstd::prelude::*;
use crate::base_iface::{
    InterfaceIp, InterfaceIpView, InterfaceType, LldpConfig, LldpConfigView, LldpNeighbor,
    LldpNeighborView, WaitIp,
};
use crate::nm::connection::{
    NM_SETTING_CONNECTION_LLDP_ENABLE_RX, NmConnection, NmDevice, NmLldpNeighbor, NmSettingIp,
    NmSettingIpMethod,
};
use crate::nm::iface_type::nmstate_type;
use crate::text::{Text, clone_opt_string, clone_strings, str_eq};

verus! {

/// The key under which a profile keeps the description of its interface.
pub const DESCRIPTION_KEY: &'static str = "nmstate.interface.description";

/// The option of a bond that switches on source load balancing.
pub const BALANCE_SLB_KEY: &'static str = "balance-slb";

/// The value of a bond option that is switched on.
pub const OPTION_ON: &'static str = "1";

/// The kind of this library for the kind of a device.
pub fn nm_dev_iface_type_to_nmstate(nm_dev: &NmDevice) -> (t: InterfaceType)
    ensures
        t@ == nmstate_type(nm_dev.iface_type@),
{
    nm_dev.iface_type.to_nmstate()
}

/// The description that a profile keeps of its interface.
pub open spec fn description_of(c: NmConnection) -> Option<Text> {
    match c.user {
        Some(u) => match u.data {
            Some(d) => if d@.contains_key(DESCRIPTION_KEY@) {
                Some(d@[DESCRIPTION_KEY@])
            } else {
                None
            },
            None => None,
        },
        None => None,
    }
}

/// The description that a profile keeps of its interface.
pub fn get_description(nm_conn: &NmConnection) -> (d: Option<String>)
    ensures
        d.deep_view() == description_of(*nm_conn),
{
    match &nm_conn.user {
        Some(u) => match &u.data {
            Some(data) => match data.get(DESCRIPTION_KEY) {
                Some(s) => Some(s.clone()),
                None => None,
            },
            None => None,
        },
        None => None,
    }
}

/// Whether a profile switches LLDP on.
pub open spec fn lldp_enabled(c: NmConnection) -> bool {
    match c.connection {
        Some(s) => s.lldp == Some(NM_SETTING_CONNECTION_LLDP_ENABLE_RX),
        None => false,
    }
}

/// Whether a profile switches LLDP on.
pub fn is_lldp_enabled(nm_conn: &NmConnection) -> (b: bool)
    ensures
        b == lldp_enabled(*nm_conn),
{
    match &nm_conn.connection {
        Some(s) => match s.lldp {
            Some(v) => v == NM_SETTING_CONNECTION_LLDP_ENABLE_RX,
            None => false,
        },
        None => false,
    }
}

/// A neighbour in the form of this library.
pub open spec fn neighbor_of(n: NmLldpNeighbor) -> LldpNeighborView {
    LldpNeighborView {
        chassis_id: n.chassis_id.deep_view(),
        port_id: n.port_id.deep_view(),
        system_name: n.system_name.deep_view(),
    }
}

/// LLDP switched on, with the neighbours that the backend saw.
pub open spec fn lldp_of(neighbors: Seq<NmLldpNeighbor>) -> LldpConfigView {
    LldpConfigView {
        enabled: true,
        neighbors: Seq::new(neighbors.len(), |i: int| neighbor_of(neighbors[i])),
    }
}

/// LLDP switched off, without neighbours.
pub open spec fn lldp_off() -> LldpConfigView {
    LldpConfigView { enabled: false, neighbors: Seq::empty() }
}

/// LLDP switched on, with the neighbours that the backend saw.
pub fn get_lldp(nm_neighbors: Vec<NmLldpNeighbor>) -> (lldp: LldpConfig)
    ensures
        lldp.deep_view() == lldp_of(nm_neighbors@),
{
    let mut neighbors: Vec<LldpNeighbor> = Vec::new();
    let mut i: usize = 0;
    while i < nm_neighbors.len()
        invariant
            i <= nm_neighbors.len(),
            neighbors.deep_view() =~= Seq::new(
                i as nat,
                |k: int| neighbor_of(nm_neighbors@[k]),
            ),
        decreases nm_neighbors.len() - i,
    {
        let n = &nm_neighbors[i];
        let ghost before = neighbors.deep_view();
        neighbors.push(
            LldpNeighbor {
                chassis_id: clone_opt_string(&n.chassis_id),
                port_id: clone_opt_string(&n.port_id),
                system_name: clone_opt_string(&n.system_name),
            },
        );
        assert(neighbors.deep_view() =~= before.push(neighbor_of(nm_neighbors@[i as int])));
        i += 1;
    }
    let lldp = LldpConfig { enabled: true, neighbors };
    assert(lldp.deep_view().neighbors =~= lldp_of(nm_neighbors@).neighbors);
    lldp
}

/// The IPv4 configuration of an interface as its profile has it: disabled
/// where the profile has no method or disables the family; DHCP where the
/// method is automatic; the static addresses where there are any.
pub open spec fn ip4_of(s: NmSettingIp) -> InterfaceIpView {
    let enabled = s.method is Some && s.method != Some(NmSettingIpMethod::Disabled);
    InterfaceIpView {
        enabled,
        dhcp: if enabled {
            Some(s.method == Some(NmSettingIpMethod::Auto))
        } else {
            None
        },
        autoconf: None,
        addresses: if enabled && s.addresses@.len() > 0 {
            Some(s.addresses.deep_view())
        } else {
            None
        },
        touched: Set::empty(),
    }
}

/// The IPv6 configuration of an interface as its profile has it: disabled
/// where the profile has no method, disables the family or leaves it to the
/// kernel; DHCP where the method is automatic or DHCP; autoconfiguration
/// where it is automatic; the static addresses where there are any.
pub open spec fn ip6_of(s: NmSettingIp) -> InterfaceIpView {
    let enabled = s.method is Some && s.method != Some(NmSettingIpMethod::Disabled) && s.method
        != Some(NmSettingIpMethod::Ignore);
    InterfaceIpView {
        enabled,
        dhcp: if enabled {
            Some(
                s.method == Some(NmSettingIpMethod::Auto) || s.method == Some(
                    NmSettingIpMethod::Dhcp,
                ),
            )
        } else {
            None
        },
        autoconf: if enabled {
            Some(s.method == Some(NmSettingIpMethod::Auto))
        } else {
            None
        },
        addresses: if enabled && s.addresses@.len() > 0 {
            Some(s.addresses.deep_view())
        } else {
            None
        },
        touched: Set::empty(),
    }
}

fn ip_block(
    enabled: bool,
    dhcp: Option<bool>,
    autoconf: Option<bool>,
    nm_ip_setting: &NmSettingIp,
) -> (ip: InterfaceIp)
    ensures
        ip@ == (InterfaceIpView {
            enabled,
            dhcp,
            autoconf,
            addresses: if enabled && nm_ip_setting.addresses@.len() > 0 {
                Some(nm_ip_setting.addresses.deep_view())
            } else {
                None
            },
            touched: Set::empty(),
        }),
        ip.prop_list@.len() == 0,
{
    let addresses = if enabled && nm_ip_setting.addresses.len() > 0 {
        Some(clone_strings(&nm_ip_setting.addresses))
    } else {
        None
    };
    let mut ip = InterfaceIp::new();
    ip.enabled = enabled;
    ip.dhcp = dhcp;
    ip.autoconf = autoconf;
    ip.addresses = addresses;
    ip
}

/// The IPv4 configuration of an interface as its profile has it.
pub fn nm_ip_setting_to_nmstate4(nm_ip_setting: &NmSettingIp) -> (ip: InterfaceIp)
    ensures
        ip@ == ip4_of(*nm_ip_setting),
        ip.prop_list@.len() == 0,
{
    let enabled = match nm_ip_setting.method {
        Some(m) => m != NmSettingIpMethod::Disabled,
        None => false,
    };
    let auto = match nm_ip_setting.method {
        Some(m) => m == NmSettingIpMethod::Auto,
        None => false,
    };
    let dhcp = if enabled {
        Some(auto)
    } else {
        None
    };
    ip_block(enabled, dhcp, None, nm_ip_setting)
}

/// The IPv6 configuration of an interface as its profile has it.
pub fn nm_ip_setting_to_nmstate6(nm_ip_setting: &NmSettingIp) -> (ip: InterfaceIp)
    ensures
        ip@ == ip6_of(*nm_ip_setting),
        ip.prop_list@.len() == 0,
{
    let enabled = match nm_ip_setting.method {
        Some(m) => m != NmSettingIpMethod::Disabled && m != NmSettingIpMethod::Ignore,
        None => false,
    };
    let auto = match nm_ip_setting.method {
        Some(m) => m == NmSettingIpMethod::Auto,
        None => false,
    };
    let stateful = match nm_ip_setting.method {
        Some(m) => m == NmSettingIpMethod::Auto || m == NmSettingIpMethod::Dhcp,
        None => false,
    };
    let dhcp = if enabled {
        Some(stateful)
    } else {
        None
    };
    let autoconf = if enabled {
        Some(auto)
    } else {
        None
    };
    ip_block(enabled, dhcp, autoconf, nm_ip_setting)
}

/// Whether activation goes on when a family gets no address; it does where
/// the profile does not say.
pub open spec fn may_fail(s: Option<NmSettingIp>) -> Option<bool> {
    match s {
        Some(ip) => Some(ip.may_fail != Some(false)),
        None => None,
    }
}

/// For which families the activation of a profile waits for an address: for
/// those that may not fail. Nothing where the profile lacks a family.
pub open spec fn wait_ip_of(ipv4: Option<NmSettingIp>, ipv6: Option<NmSettingIp>) -> Option<
    WaitIp,
> {
    match (may_fail(ipv4), may_fail(ipv6)) {
        (Some(true), Some(true)) => Some(WaitIp::Any),
        (Some(true), Some(false)) => Some(WaitIp::Ipv6),
        (Some(false), Some(true)) => Some(WaitIp::Ipv4),
        (Some(false), Some(false)) => Some(WaitIp::Ipv4AndIpv6),
        _ => None,
    }
}

/// For which families the activation of a profile waits for an address.
pub fn query_nmstate_wait_ip(ipv4: Option<&NmSettingIp>, ipv6: Option<&NmSettingIp>) -> (w:
    Option<WaitIp>)
    ensures
        w == wait_ip_of(
            match ipv4 {
                Some(s) => Some(*s),
                None => None,
            },
            match ipv6 {
                Some(s) => Some(*s),
                None => None,
            },
        ),
{
    match ipv4 {
        Some(v4) => match ipv6 {
            Some(v6) => {
                let v4_may_fail = match v4.may_fail {
                    Some(b) => b,
                    None => true,
                };
                let v6_may_fail = match v6.may_fail {
                    Some(b) => b,
                    None => true,
                };
                if v4_may_fail && v6_may_fail {
                    Some(WaitIp::Any)
                } else if v4_may_fail {
                    Some(WaitIp::Ipv6)
                } else if v6_may_fail {
                    Some(WaitIp::Ipv4)
                } else {
                    Some(WaitIp::Ipv4AndIpv6)
                }
            },
            None => None,
        },
        None => None,
    }
}

/// Whether the bond of a profile balances by source: what its option says,
/// nothing where the profile has no bond setting or no such option.
pub open spec fn balance_slb_of(c: NmConnection) -> Option<bool> {
    match c.bond {
        Some(b) => if b.options@.contains_key(BALANCE_SLB_KEY@) {
            Some(b.options@[BALANCE_SLB_KEY@] == OPTION_ON@)
        } else {
            None
        },
        None => None,
    }
}

/// Whether the bond of a profile balances by source.
pub fn get_bond_balance_slb(nm_conn: &NmConnection) -> (b: Option<bool>)
    ensures
        b == balance_slb_of(*nm_conn),
{
    match &nm_conn.bond {
        Some(bond) => match bond.options.get(BALANCE_SLB_KEY) {
            Some(v) => Some(str_eq(v.as_str(), OPTION_ON)),
            None => None,
        },
        None => None,
    }
}

} // verus!
