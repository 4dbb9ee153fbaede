//! The kinds of interfaces that the profile backend knows.

use vstd::prelude::*;
use vstd::string::StringExecFns;
use crate::base_iface::{InterfaceType, InterfaceTypeView};
use crate::error::{ErrorKind, NmstateError};
use crate::text::{Text, string_eq};

verus! {

/// The kind of an interface as the profile backend names it.
#[derive(Debug, PartialEq, Eq)]
pub enum NmIfaceType {
    Bond,
    Bridge,
    Dummy,
    Ethernet,
    Hsr,
    Loopback,
    Macvlan,
    Macsec,
    OvsBridge,
    OvsIface,
    OvsPort,
    Tun,
    Veth,
    Vlan,
    Vrf,
    Vxlan,
    Infiniband,
    Ipvlan,
    Vpn,
    Other(String),
}

/// The mathematical form of `NmIfaceType`.
pub enum NmIfaceTypeView {
    Bond,
    Bridge,
    Dummy,
    Ethernet,
    Hsr,
    Loopback,
    Macvlan,
    Macsec,
    OvsBridge,
    OvsIface,
    OvsPort,
    Tun,
    Veth,
    Vlan,
    Vrf,
    Vxlan,
    Infiniband,
    Ipvlan,
    Vpn,
    Other(Text),
}

impl DeepView for NmIfaceType {
    type V = NmIfaceTypeView;

    open spec fn deep_view(&self) -> NmIfaceTypeView {
        match self {
            NmIfaceType::Bond => NmIfaceTypeView::Bond,
            NmIfaceType::Bridge => NmIfaceTypeView::Bridge,
            NmIfaceType::Dummy => NmIfaceTypeView::Dummy,
            NmIfaceType::Ethernet => NmIfaceTypeView::Ethernet,
            NmIfaceType::Hsr => NmIfaceTypeView::Hsr,
            NmIfaceType::Loopback => NmIfaceTypeView::Loopback,
            NmIfaceType::Macvlan => NmIfaceTypeView::Macvlan,
            NmIfaceType::Macsec => NmIfaceTypeView::Macsec,
            NmIfaceType::OvsBridge => NmIfaceTypeView::OvsBridge,
            NmIfaceType::OvsIface => NmIfaceTypeView::OvsIface,
            NmIfaceType::OvsPort => NmIfaceTypeView::OvsPort,
            NmIfaceType::Tun => NmIfaceTypeView::Tun,
            NmIfaceType::Veth => NmIfaceTypeView::Veth,
            NmIfaceType::Vlan => NmIfaceTypeView::Vlan,
            NmIfaceType::Vrf => NmIfaceTypeView::Vrf,
            NmIfaceType::Vxlan => NmIfaceTypeView::Vxlan,
            NmIfaceType::Infiniband => NmIfaceTypeView::Infiniband,
            NmIfaceType::Ipvlan => NmIfaceTypeView::Ipvlan,
            NmIfaceType::Vpn => NmIfaceTypeView::Vpn,
            NmIfaceType::Other(s) => NmIfaceTypeView::Other(s@),
        }
    }
}

impl View for NmIfaceType {
    type V = NmIfaceTypeView;

    open spec fn view(&self) -> NmIfaceTypeView {
        self.deep_view()
    }
}

impl Clone for NmIfaceType {
    fn clone(&self) -> (copy: Self)
        ensures
            copy@ == self@,
    {
        match self {
            NmIfaceType::Bond => NmIfaceType::Bond,
            NmIfaceType::Bridge => NmIfaceType::Bridge,
            NmIfaceType::Dummy => NmIfaceType::Dummy,
            NmIfaceType::Ethernet => NmIfaceType::Ethernet,
            NmIfaceType::Hsr => NmIfaceType::Hsr,
            NmIfaceType::Loopback => NmIfaceType::Loopback,
            NmIfaceType::Macvlan => NmIfaceType::Macvlan,
            NmIfaceType::Macsec => NmIfaceType::Macsec,
            NmIfaceType::OvsBridge => NmIfaceType::OvsBridge,
            NmIfaceType::OvsIface => NmIfaceType::OvsIface,
            NmIfaceType::OvsPort => NmIfaceType::OvsPort,
            NmIfaceType::Tun => NmIfaceType::Tun,
            NmIfaceType::Veth => NmIfaceType::Veth,
            NmIfaceType::Vlan => NmIfaceType::Vlan,
            NmIfaceType::Vrf => NmIfaceType::Vrf,
            NmIfaceType::Vxlan => NmIfaceType::Vxlan,
            NmIfaceType::Infiniband => NmIfaceType::Infiniband,
            NmIfaceType::Ipvlan => NmIfaceType::Ipvlan,
            NmIfaceType::Vpn => NmIfaceType::Vpn,
            NmIfaceType::Other(s) => NmIfaceType::Other(s.clone()),
        }
    }
}

impl Default for NmIfaceType {
    fn default() -> (t: Self)
        ensures
            t@ == NmIfaceTypeView::Ethernet,
    {
        NmIfaceType::Ethernet
    }
}

/// The position of a kind in the declaration of `NmIfaceType`.
pub open spec fn nm_type_rank(t: NmIfaceTypeView) -> int {
    match t {
        NmIfaceTypeView::Bond => 0,
        NmIfaceTypeView::Bridge => 1,
        NmIfaceTypeView::Dummy => 2,
        NmIfaceTypeView::Ethernet => 3,
        NmIfaceTypeView::Hsr => 4,
        NmIfaceTypeView::Loopback => 5,
        NmIfaceTypeView::Macvlan => 6,
        NmIfaceTypeView::Macsec => 7,
        NmIfaceTypeView::OvsBridge => 8,
        NmIfaceTypeView::OvsIface => 9,
        NmIfaceTypeView::OvsPort => 10,
        NmIfaceTypeView::Tun => 11,
        NmIfaceTypeView::Veth => 12,
        NmIfaceTypeView::Vlan => 13,
        NmIfaceTypeView::Vrf => 14,
        NmIfaceTypeView::Vxlan => 15,
        NmIfaceTypeView::Infiniband => 16,
        NmIfaceTypeView::Ipvlan => 17,
        NmIfaceTypeView::Vpn => 18,
        NmIfaceTypeView::Other(_) => 19,
    }
}

/// The kind under which profiles and devices of kind `t` are indexed: a veth
/// counts as ethernet.
pub open spec fn index_type(t: NmIfaceTypeView) -> NmIfaceTypeView {
    if t == NmIfaceTypeView::Veth {
        NmIfaceTypeView::Ethernet
    } else {
        t
    }
}

/// The name that the profile backend gives to ports of Open vSwitch.
pub const OVS_PORT_NAME: &'static str = "ovs-port";

/// The kind of this library for a kind of the profile backend: a veth counts
/// as ethernet, and a port of Open vSwitch has no kind of its own.
pub open spec fn nmstate_type(t: NmIfaceTypeView) -> InterfaceTypeView {
    match t {
        NmIfaceTypeView::Bond => InterfaceTypeView::Bond,
        NmIfaceTypeView::Bridge => InterfaceTypeView::LinuxBridge,
        NmIfaceTypeView::Dummy => InterfaceTypeView::Dummy,
        NmIfaceTypeView::Ethernet => InterfaceTypeView::Ethernet,
        NmIfaceTypeView::Hsr => InterfaceTypeView::Hsr,
        NmIfaceTypeView::Loopback => InterfaceTypeView::Loopback,
        NmIfaceTypeView::Macvlan => InterfaceTypeView::MacVlan,
        NmIfaceTypeView::Macsec => InterfaceTypeView::MacSec,
        NmIfaceTypeView::OvsBridge => InterfaceTypeView::OvsBridge,
        NmIfaceTypeView::OvsIface => InterfaceTypeView::OvsInterface,
        NmIfaceTypeView::OvsPort => InterfaceTypeView::Other(OVS_PORT_NAME@),
        NmIfaceTypeView::Tun => InterfaceTypeView::Tun,
        NmIfaceTypeView::Veth => InterfaceTypeView::Ethernet,
        NmIfaceTypeView::Vlan => InterfaceTypeView::Vlan,
        NmIfaceTypeView::Vrf => InterfaceTypeView::Vrf,
        NmIfaceTypeView::Vxlan => InterfaceTypeView::Vxlan,
        NmIfaceTypeView::Infiniband => InterfaceTypeView::InfiniBand,
        NmIfaceTypeView::Ipvlan => InterfaceTypeView::IpVlan,
        NmIfaceTypeView::Vpn => InterfaceTypeView::Ipsec,
        NmIfaceTypeView::Other(s) => InterfaceTypeView::Other(s),
    }
}

/// The kind of the profile backend for a kind of this library, where it has
/// one.
pub open spec fn nm_type(t: InterfaceTypeView) -> Option<NmIfaceTypeView> {
    match t {
        InterfaceTypeView::Bond => Some(NmIfaceTypeView::Bond),
        InterfaceTypeView::LinuxBridge => Some(NmIfaceTypeView::Bridge),
        InterfaceTypeView::Dummy => Some(NmIfaceTypeView::Dummy),
        InterfaceTypeView::Ethernet => Some(NmIfaceTypeView::Ethernet),
        InterfaceTypeView::Hsr => Some(NmIfaceTypeView::Hsr),
        InterfaceTypeView::Loopback => Some(NmIfaceTypeView::Loopback),
        InterfaceTypeView::MacVlan => Some(NmIfaceTypeView::Macvlan),
        InterfaceTypeView::MacVtap => Some(NmIfaceTypeView::Macvlan),
        InterfaceTypeView::OvsBridge => Some(NmIfaceTypeView::OvsBridge),
        InterfaceTypeView::OvsInterface => Some(NmIfaceTypeView::OvsIface),
        InterfaceTypeView::Veth => Some(NmIfaceTypeView::Veth),
        InterfaceTypeView::Vlan => Some(NmIfaceTypeView::Vlan),
        InterfaceTypeView::Vrf => Some(NmIfaceTypeView::Vrf),
        InterfaceTypeView::Vxlan => Some(NmIfaceTypeView::Vxlan),
        InterfaceTypeView::InfiniBand => Some(NmIfaceTypeView::Infiniband),
        InterfaceTypeView::MacSec => Some(NmIfaceTypeView::Macsec),
        InterfaceTypeView::Ipsec => Some(NmIfaceTypeView::Vpn),
        InterfaceTypeView::IpVlan => Some(NmIfaceTypeView::Ipvlan),
        InterfaceTypeView::Other(s) => Some(NmIfaceTypeView::Other(s)),
        InterfaceTypeView::Tun => None,
        InterfaceTypeView::Xfrm => None,
        InterfaceTypeView::Unknown => None,
    }
}

/// The start of the reason why a kind of this library cannot be given to the
/// profile backend.
pub const MSG_NO_NM_TYPE_HEAD: &'static str = "Does not support iface type: ";

/// The end of that reason.
pub const MSG_NO_NM_TYPE_TAIL: &'static str = " yet";

/// Why a kind of this library cannot be given to the profile backend.
pub open spec fn no_nm_type_msg(t: InterfaceTypeView) -> Text {
    MSG_NO_NM_TYPE_HEAD@ + crate::base_iface::kind_name(t) + MSG_NO_NM_TYPE_TAIL@
}

impl NmIfaceType {
    fn rank(&self) -> (r: u8)
        ensures
            r == nm_type_rank(self@),
    {
        match self {
            NmIfaceType::Bond => 0,
            NmIfaceType::Bridge => 1,
            NmIfaceType::Dummy => 2,
            NmIfaceType::Ethernet => 3,
            NmIfaceType::Hsr => 4,
            NmIfaceType::Loopback => 5,
            NmIfaceType::Macvlan => 6,
            NmIfaceType::Macsec => 7,
            NmIfaceType::OvsBridge => 8,
            NmIfaceType::OvsIface => 9,
            NmIfaceType::OvsPort => 10,
            NmIfaceType::Tun => 11,
            NmIfaceType::Veth => 12,
            NmIfaceType::Vlan => 13,
            NmIfaceType::Vrf => 14,
            NmIfaceType::Vxlan => 15,
            NmIfaceType::Infiniband => 16,
            NmIfaceType::Ipvlan => 17,
            NmIfaceType::Vpn => 18,
            NmIfaceType::Other(_) => 19,
        }
    }

    /// Whether two kinds are the same.
    pub fn same(&self, other: &NmIfaceType) -> (eq: bool)
        ensures
            eq == (self@ == other@),
    {
        match self {
            NmIfaceType::Other(a) => match other {
                NmIfaceType::Other(b) => string_eq(a, b),
                _ => false,
            },
            _ => self.rank() == other.rank(),
        }
    }

    /// Whether two kinds are the same once a veth counts as ethernet.
    pub fn same_index(&self, other: &NmIfaceType) -> (eq: bool)
        ensures
            eq == (index_type(self@) == index_type(other@)),
    {
        let a = self.rank();
        let b = other.rank();
        if a == 12 {
            b == 12 || b == 3
        } else if b == 12 {
            a == 3
        } else {
            self.same(other)
        }
    }

    /// Whether the kind is a port of Open vSwitch.
    pub fn is_ovs_port(&self) -> (b: bool)
        ensures
            b == (self@ == NmIfaceTypeView::OvsPort),
    {
        self.rank() == 10
    }

    /// Whether the kind is a bridge.
    pub fn is_bridge(&self) -> (b: bool)
        ensures
            b == (self@ == NmIfaceTypeView::Bridge),
    {
        self.rank() == 1
    }

    /// Whether the kind is a bond.
    pub fn is_bond(&self) -> (b: bool)
        ensures
            b == (self@ == NmIfaceTypeView::Bond),
    {
        self.rank() == 0
    }

    /// Whether the kind is a VPN.
    pub fn is_vpn(&self) -> (b: bool)
        ensures
            b == (self@ == NmIfaceTypeView::Vpn),
    {
        self.rank() == 18
    }

    /// The kind of this library for this kind.
    pub fn to_nmstate(&self) -> (t: InterfaceType)
        ensures
            t@ == nmstate_type(self@),
    {
        match self {
            NmIfaceType::Bond => InterfaceType::Bond,
            NmIfaceType::Bridge => InterfaceType::LinuxBridge,
            NmIfaceType::Dummy => InterfaceType::Dummy,
            NmIfaceType::Ethernet => InterfaceType::Ethernet,
            NmIfaceType::Hsr => InterfaceType::Hsr,
            NmIfaceType::Loopback => InterfaceType::Loopback,
            NmIfaceType::Macvlan => InterfaceType::MacVlan,
            NmIfaceType::Macsec => InterfaceType::MacSec,
            NmIfaceType::OvsBridge => InterfaceType::OvsBridge,
            NmIfaceType::OvsIface => InterfaceType::OvsInterface,
            NmIfaceType::OvsPort => InterfaceType::Other(OVS_PORT_NAME.to_owned()),
            NmIfaceType::Tun => InterfaceType::Tun,
            NmIfaceType::Veth => InterfaceType::Ethernet,
            NmIfaceType::Vlan => InterfaceType::Vlan,
            NmIfaceType::Vrf => InterfaceType::Vrf,
            NmIfaceType::Vxlan => InterfaceType::Vxlan,
            NmIfaceType::Infiniband => InterfaceType::InfiniBand,
            NmIfaceType::Ipvlan => InterfaceType::IpVlan,
            NmIfaceType::Vpn => InterfaceType::Ipsec,
            NmIfaceType::Other(s) => InterfaceType::Other(s.clone()),
        }
    }
}

/// The kind of the profile backend for a kind of this library. A kind that
/// the backend has no profiles for is refused as not implemented.
pub fn iface_type_to_nm(iface_type: &InterfaceType) -> (r: Result<NmIfaceType, NmstateError>)
    ensures
        match r {
            Ok(t) => nm_type(iface_type@) == Some(t@),
            Err(e) => nm_type(iface_type@) is None && e.kind == ErrorKind::NotImplementedError
                && e.msg@ == no_nm_type_msg(iface_type@),
        },
{
    match iface_type {
        InterfaceType::Bond => Ok(NmIfaceType::Bond),
        InterfaceType::LinuxBridge => Ok(NmIfaceType::Bridge),
        InterfaceType::Dummy => Ok(NmIfaceType::Dummy),
        InterfaceType::Ethernet => Ok(NmIfaceType::Ethernet),
        InterfaceType::Hsr => Ok(NmIfaceType::Hsr),
        InterfaceType::Loopback => Ok(NmIfaceType::Loopback),
        InterfaceType::MacVlan => Ok(NmIfaceType::Macvlan),
        InterfaceType::MacVtap => Ok(NmIfaceType::Macvlan),
        InterfaceType::OvsBridge => Ok(NmIfaceType::OvsBridge),
        InterfaceType::OvsInterface => Ok(NmIfaceType::OvsIface),
        InterfaceType::Veth => Ok(NmIfaceType::Veth),
        InterfaceType::Vlan => Ok(NmIfaceType::Vlan),
        InterfaceType::Vrf => Ok(NmIfaceType::Vrf),
        InterfaceType::Vxlan => Ok(NmIfaceType::Vxlan),
        InterfaceType::InfiniBand => Ok(NmIfaceType::Infiniband),
        InterfaceType::MacSec => Ok(NmIfaceType::Macsec),
        InterfaceType::Ipsec => Ok(NmIfaceType::Vpn),
        InterfaceType::IpVlan => Ok(NmIfaceType::Ipvlan),
        InterfaceType::Other(s) => Ok(NmIfaceType::Other(s.clone())),
        _ => {
            let mut msg = MSG_NO_NM_TYPE_HEAD.to_owned();
            let name = iface_type.to_string();
            msg.append(name.as_str());
            msg.append(MSG_NO_NM_TYPE_TAIL);
            Err(NmstateError::new(ErrorKind::NotImplementedError, msg))
        },
    }
}

} // verus!
