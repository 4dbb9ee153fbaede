//! Profiles of the profile backend, their settings, and the devices and
//! activations it reports.

use vstd::prelude::*;
use crate::nm::ieee8021x::NmSetting8021X;
use crate::nm::iface_type::{NmIfaceType, NmIfaceTypeView};
use crate::nm::ipvlan::NmSettingIpVlan;
use crate::nm::route_rule::NmIpRouteRule;
use crate::nm::veth::NmSettingVeth;
use crate::strmap::StrMap;
use crate::text::{Text, opt_string_eq};

verus! {

/// The bit of the flags of an activation that marks an interface which the
/// backend did not configure itself.
pub const NM_ACTIVATION_STATE_FLAG_EXTERNAL: u32 = 0x80;

/// The value of the LLDP attribute of a profile that switches LLDP on.
pub const NM_SETTING_CONNECTION_LLDP_ENABLE_RX: i32 = 1;

/// The general setting of a profile.
#[derive(Debug, PartialEq, Eq)]
pub struct NmSettingConnection {
    pub id: Option<String>,
    pub uuid: Option<String>,
    pub iface_type: Option<NmIfaceType>,
    pub iface_name: Option<String>,
    pub controller: Option<String>,
    pub controller_type: Option<NmIfaceType>,
    pub lldp: Option<i32>,
    pub mptcp_flags: Option<u32>,
}

/// The wired setting of a profile.
#[derive(Debug, PartialEq, Eq)]
pub struct NmSettingWired {
    pub mac_address: Option<String>,
    pub mtu: Option<u32>,
}

/// How a profile gets its addresses.
#[derive(Debug, Clone, Copy, PartialEq, Eq, Structural)]
pub enum NmSettingIpMethod {
    Auto,
    Disabled,
    LinkLocal,
    Manual,
    Shared,
    /// DHCP only; IPv6.
    Dhcp,
    /// Left to the kernel; IPv6.
    Ignore,
}

/// A static route of a profile.
#[derive(Debug, PartialEq, Eq)]
pub struct NmIpRoute {
    pub dest: Option<String>,
    pub prefix: Option<u32>,
    pub next_hop: Option<String>,
    pub table: Option<u32>,
    pub metric: Option<u32>,
}

/// The mathematical form of `NmIpRoute`.
pub struct NmIpRouteView {
    pub dest: Option<Text>,
    pub prefix: Option<u32>,
    pub next_hop: Option<Text>,
    pub table: Option<u32>,
    pub metric: Option<u32>,
}

impl DeepView for NmIpRoute {
    type V = NmIpRouteView;

    open spec fn deep_view(&self) -> NmIpRouteView {
        NmIpRouteView {
            dest: self.dest.deep_view(),
            prefix: self.prefix,
            next_hop: self.next_hop.deep_view(),
            table: self.table,
            metric: self.metric,
        }
    }
}

impl NmIpRoute {
    /// Whether two routes are the same.
    pub fn same(&self, other: &NmIpRoute) -> (eq: bool)
        ensures
            eq == (self.deep_view() == other.deep_view()),
    {
        opt_string_eq(&self.dest, &other.dest) && self.prefix == other.prefix && opt_string_eq(
            &self.next_hop,
            &other.next_hop,
        ) && self.table == other.table && self.metric == other.metric
    }
}

/// The IP setting of a profile, for one address family.
#[derive(Debug, PartialEq)]
pub struct NmSettingIp {
    pub method: Option<NmSettingIpMethod>,
    /// Static addresses, each as address, slash, prefix length.
    pub addresses: Vec<String>,
    pub routes: Vec<NmIpRoute>,
    pub route_rules: Vec<NmIpRouteRule>,
    /// Whether activation goes on when this family gets no address.
    pub may_fail: Option<bool>,
}

/// The VRF setting of a profile.
#[derive(Debug, Clone, Copy, PartialEq, Eq, Structural)]
pub struct NmSettingVrf {
    pub table: Option<u32>,
}

/// The VLAN setting of a profile.
#[derive(Debug, PartialEq, Eq)]
pub struct NmSettingVlan {
    pub parent: Option<String>,
    pub id: Option<u32>,
    pub protocol: Option<String>,
}

/// The VXLAN setting of a profile.
#[derive(Debug, PartialEq, Eq)]
pub struct NmSettingVxlan {
    pub parent: Option<String>,
    pub id: Option<u32>,
    pub remote: Option<String>,
    pub dst_port: Option<u32>,
}

/// The MACsec setting of a profile.
#[derive(Debug, PartialEq, Eq)]
pub struct NmSettingMacSec {
    pub parent: Option<String>,
    pub mka_cak: Option<String>,
    pub mka_ckn: Option<String>,
}

/// The VPN setting of a profile.
#[derive(Debug, PartialEq, Eq)]
pub struct NmSettingVpn {
    pub data: Option<StrMap>,
    pub secrets: Option<StrMap>,
    pub service_type: Option<String>,
}

/// The bond setting of a profile.
#[derive(Debug, PartialEq, Eq)]
pub struct NmSettingBond {
    pub options: StrMap,
}

/// What the user stored with a profile.
#[derive(Debug, PartialEq, Eq)]
pub struct NmSettingUser {
    pub data: Option<StrMap>,
}

/// A profile of the profile backend.
#[derive(Debug, PartialEq)]
pub struct NmConnection {
    pub connection: Option<NmSettingConnection>,
    pub wired: Option<NmSettingWired>,
    pub ipv4: Option<NmSettingIp>,
    pub ipv6: Option<NmSettingIp>,
    pub vrf: Option<NmSettingVrf>,
    pub vlan: Option<NmSettingVlan>,
    pub vxlan: Option<NmSettingVxlan>,
    pub veth: Option<NmSettingVeth>,
    pub ipvlan: Option<NmSettingIpVlan>,
    pub macsec: Option<NmSettingMacSec>,
    pub vpn: Option<NmSettingVpn>,
    pub bond: Option<NmSettingBond>,
    pub user: Option<NmSettingUser>,
    pub ieee8021x: Option<NmSetting8021X>,
}

/// The UUID of a profile.
pub open spec fn conn_uuid(c: NmConnection) -> Option<Text> {
    match c.connection {
        Some(s) => s.uuid.deep_view(),
        None => None,
    }
}

/// The name of a profile.
pub open spec fn conn_id(c: NmConnection) -> Option<Text> {
    match c.connection {
        Some(s) => s.id.deep_view(),
        None => None,
    }
}

/// The name of the interface of a profile.
pub open spec fn conn_iface_name(c: NmConnection) -> Option<Text> {
    match c.connection {
        Some(s) => s.iface_name.deep_view(),
        None => None,
    }
}

/// The kind of the interface of a profile.
pub open spec fn conn_iface_type(c: NmConnection) -> Option<NmIfaceTypeView> {
    match c.connection {
        Some(s) => s.iface_type.deep_view(),
        None => None,
    }
}

/// The controller that a profile names: by interface name or by UUID.
pub open spec fn conn_controller(c: NmConnection) -> Option<Text> {
    match c.connection {
        Some(s) => s.controller.deep_view(),
        None => None,
    }
}

/// The kind of the controller that a profile names.
pub open spec fn conn_controller_type(c: NmConnection) -> Option<NmIfaceTypeView> {
    match c.connection {
        Some(s) => s.controller_type.deep_view(),
        None => None,
    }
}

/// The MAC address that a profile is bound to.
pub open spec fn conn_mac(c: NmConnection) -> Option<Text> {
    match c.wired {
        Some(w) => w.mac_address.deep_view(),
        None => None,
    }
}

impl NmConnection {
    /// A profile without any setting.
    pub fn new() -> (c: Self)
        ensures
            c.connection is None,
            c.wired is None,
            c.ipv4 is None,
            c.ipv6 is None,
            c.vrf is None,
            c.vlan is None,
            c.vxlan is None,
            c.veth is None,
            c.ipvlan is None,
            c.macsec is None,
            c.vpn is None,
            c.bond is None,
            c.user is None,
            c.ieee8021x is None,
    {
        NmConnection {
            connection: None,
            wired: None,
            ipv4: None,
            ipv6: None,
            vrf: None,
            vlan: None,
            vxlan: None,
            veth: None,
            ipvlan: None,
            macsec: None,
            vpn: None,
            bond: None,
            user: None,
            ieee8021x: None,
        }
    }

    /// The UUID of the profile.
    pub fn uuid(&self) -> (r: Option<&String>)
        ensures
            r.deep_view() == conn_uuid(*self),
    {
        match &self.connection {
            Some(s) => s.uuid.as_ref(),
            None => None,
        }
    }

    /// The name of the profile.
    pub fn id(&self) -> (r: Option<&String>)
        ensures
            r.deep_view() == conn_id(*self),
    {
        match &self.connection {
            Some(s) => s.id.as_ref(),
            None => None,
        }
    }

    /// The name of the interface of the profile.
    pub fn iface_name(&self) -> (r: Option<&String>)
        ensures
            r.deep_view() == conn_iface_name(*self),
    {
        match &self.connection {
            Some(s) => s.iface_name.as_ref(),
            None => None,
        }
    }

    /// The kind of the interface of the profile.
    pub fn iface_type(&self) -> (r: Option<&NmIfaceType>)
        ensures
            r.deep_view() == conn_iface_type(*self),
    {
        match &self.connection {
            Some(s) => s.iface_type.as_ref(),
            None => None,
        }
    }

    /// The controller that the profile names.
    pub fn controller(&self) -> (r: Option<&String>)
        ensures
            r.deep_view() == conn_controller(*self),
    {
        match &self.connection {
            Some(s) => s.controller.as_ref(),
            None => None,
        }
    }

    /// The kind of the controller that the profile names.
    pub fn controller_type(&self) -> (r: Option<&NmIfaceType>)
        ensures
            r.deep_view() == conn_controller_type(*self),
    {
        match &self.connection {
            Some(s) => s.controller_type.as_ref(),
            None => None,
        }
    }
}

/// What the profile backend does with a device.
#[derive(Debug, Clone, Copy, PartialEq, Eq, Structural)]
pub enum NmDeviceState {
    Unknown,
    Unmanaged,
    Unavailable,
    Disconnected,
    Prepare,
    Config,
    NeedAuth,
    IpConfig,
    IpCheck,
    Secondaries,
    Activated,
    Deactivating,
    Failed,
}

/// A device that the profile backend reports.
#[derive(Debug, PartialEq, Eq)]
pub struct NmDevice {
    pub name: String,
    pub iface_type: NmIfaceType,
    pub state: NmDeviceState,
    /// The path under which the backend knows the device.
    pub obj_path: String,
    /// Whether the device exists in the kernel.
    pub real: bool,
    /// The MAC address; empty where the device has none.
    pub mac_address: String,
}

/// A neighbour that the profile backend saw over LLDP.
#[derive(Debug, PartialEq, Eq)]
pub struct NmLldpNeighbor {
    pub chassis_id: Option<String>,
    pub port_id: Option<String>,
    pub system_name: Option<String>,
}

/// A profile in use on an interface.
#[derive(Debug, PartialEq, Eq)]
pub struct NmActiveConnection {
    pub uuid: String,
    pub iface_type: NmIfaceType,
    pub iface_name: String,
    pub state_flags: u32,
}

impl Default for NmActiveConnection {
    fn default() -> (ac: Self)
        ensures
            ac.uuid@.len() == 0,
            ac.iface_type@ == NmIfaceTypeView::Ethernet,
            ac.iface_name@.len() == 0,
            ac.state_flags == 0,
    {
        NmActiveConnection {
            uuid: String::new(),
            iface_type: NmIfaceType::Ethernet,
            iface_name: String::new(),
            state_flags: 0,
        }
    }
}

impl Clone for NmActiveConnection {
    fn clone(&self) -> (copy: Self)
        ensures
            copy.uuid@ == self.uuid@,
            copy.iface_type@ == self.iface_type@,
            copy.iface_name@ == self.iface_name@,
            copy.state_flags == self.state_flags,
    {
        NmActiveConnection {
            uuid: self.uuid.clone(),
            iface_type: self.iface_type.clone(),
            iface_name: self.iface_name.clone(),
            state_flags: self.state_flags,
        }
    }
}

} // verus!
