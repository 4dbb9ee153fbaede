//! Interfaces: a tagged union over the kinds, each with the shared base
//! record and what is particular to the kind.

use vstd::prelude::*;
use crate::base_iface::{BaseInterface, InterfaceState, InterfaceType, InterfaceTypeView};
use crate::text::{string_eq};

verus! {

/// The options of a bond.
#[derive(Debug, Clone, Copy, PartialEq, Eq, Structural)]
pub struct BondOptions {
    pub balance_slb: Option<bool>,
    pub miimon: Option<u32>,
}

/// What a bond says of one of its ports.
#[derive(Debug, PartialEq, Eq)]
pub struct BondPortConfig {
    pub name: String,
    pub priority: Option<i32>,
    pub queue_id: Option<u16>,
}

/// The configuration of a bond.
#[derive(Debug, PartialEq, Eq)]
pub struct BondConfig {
    pub options: Option<BondOptions>,
    pub port: Option<Vec<String>>,
    pub ports_config: Option<Vec<BondPortConfig>>,
}

/// The configuration of an InfiniBand interface.
#[derive(Debug, PartialEq, Eq)]
pub struct InfiniBandConfig {
    pub pkey: Option<u16>,
    pub base_iface: Option<String>,
}

/// The options of a bridge of the kernel.
#[derive(Debug, Clone, Copy, PartialEq, Eq, Structural)]
pub struct LinuxBridgeOptions {
    pub vlan_default_pvid: Option<u16>,
}

/// The configuration of a bridge of the kernel.
#[derive(Debug, PartialEq, Eq)]
pub struct LinuxBridgeConfig {
    pub options: Option<LinuxBridgeOptions>,
    pub port: Option<Vec<String>>,
}

/// The configuration of a MACsec interface.
#[derive(Debug, PartialEq, Eq)]
pub struct MacSecConfig {
    pub mka_cak: Option<String>,
    pub mka_ckn: Option<String>,
}

/// The configuration of a VRF interface.
#[derive(Debug, PartialEq, Eq)]
pub struct VrfConfig {
    pub port: Option<Vec<String>>,
    pub table_id: Option<u32>,
}

/// Whether a connection of libreswan is a tunnel or a transport.
#[derive(Debug, Clone, Copy, PartialEq, Eq, Structural)]
pub enum LibreswanConnectionType {
    Tunnel,
    Transport,
}

/// The address family of a connection of libreswan.
#[derive(Debug, Clone, Copy, PartialEq, Eq, Structural)]
pub enum LibreswanAddressFamily {
    Ipv4,
    Ipv6,
}

/// The configuration of an IPsec connection of libreswan.
#[derive(Debug, PartialEq, Eq)]
pub struct LibreswanConfig {
    pub right: String,
    pub rightid: Option<String>,
    pub rightrsasigkey: Option<String>,
    pub rightcert: Option<String>,
    pub left: Option<String>,
    pub leftid: Option<String>,
    pub leftrsasigkey: Option<String>,
    pub leftcert: Option<String>,
    pub ikev2: Option<String>,
    pub psk: Option<String>,
    pub ikelifetime: Option<String>,
    pub salifetime: Option<String>,
    pub ike: Option<String>,
    pub esp: Option<String>,
    pub dpddelay: Option<u64>,
    pub dpdtimeout: Option<u64>,
    pub dpdaction: Option<String>,
    pub ipsec_interface: Option<String>,
    pub authby: Option<String>,
    pub rightsubnet: Option<String>,
    pub leftsubnet: Option<String>,
    pub leftmodecfgclient: Option<bool>,
    pub kind: Option<LibreswanConnectionType>,
    pub hostaddrfamily: Option<LibreswanAddressFamily>,
    pub clientaddrfamily: Option<LibreswanAddressFamily>,
    pub require_id_on_certificate: Option<bool>,
}

/// A bond.
#[derive(Debug, PartialEq, Eq)]
pub struct BondInterface {
    pub base: BaseInterface,
    pub bond: Option<BondConfig>,
}

/// A dummy interface.
#[derive(Debug, PartialEq, Eq)]
pub struct DummyInterface {
    pub base: BaseInterface,
}

/// An ethernet interface, or one end of a veth pair.
#[derive(Debug, PartialEq, Eq)]
pub struct EthernetInterface {
    pub base: BaseInterface,
}

/// An HSR interface.
#[derive(Debug, PartialEq, Eq)]
pub struct HsrInterface {
    pub base: BaseInterface,
}

/// An InfiniBand interface.
#[derive(Debug, PartialEq, Eq)]
pub struct InfiniBandInterface {
    pub base: BaseInterface,
    pub ib: Option<InfiniBandConfig>,
}

/// An IPVLAN interface.
#[derive(Debug, PartialEq, Eq)]
pub struct IpVlanInterface {
    pub base: BaseInterface,
}

/// An IPsec connection of libreswan.
#[derive(Debug, PartialEq, Eq)]
pub struct IpsecInterface {
    pub base: BaseInterface,
    pub libreswan: Option<LibreswanConfig>,
}

/// A bridge of the kernel.
#[derive(Debug, PartialEq, Eq)]
pub struct LinuxBridgeInterface {
    pub base: BaseInterface,
    pub bridge: Option<LinuxBridgeConfig>,
}

/// The loopback interface.
#[derive(Debug, PartialEq, Eq)]
pub struct LoopbackInterface {
    pub base: BaseInterface,
}

/// A MACsec interface.
#[derive(Debug, PartialEq, Eq)]
pub struct MacSecInterface {
    pub base: BaseInterface,
    pub macsec: Option<MacSecConfig>,
}

/// A MACVLAN interface.
#[derive(Debug, PartialEq, Eq)]
pub struct MacVlanInterface {
    pub base: BaseInterface,
}

/// A MACVTAP interface.
#[derive(Debug, PartialEq, Eq)]
pub struct MacVtapInterface {
    pub base: BaseInterface,
}

/// A bridge of Open vSwitch.
#[derive(Debug, PartialEq, Eq)]
pub struct OvsBridgeInterface {
    pub base: BaseInterface,
}

/// An internal interface of Open vSwitch.
#[derive(Debug, PartialEq, Eq)]
pub struct OvsInterface {
    pub base: BaseInterface,
}

/// An interface of a kind that this library does not know.
#[derive(Debug, PartialEq, Eq)]
pub struct UnknownInterface {
    pub base: BaseInterface,
}

/// A VLAN interface.
#[derive(Debug, PartialEq, Eq)]
pub struct VlanInterface {
    pub base: BaseInterface,
}

/// A VRF interface.
#[derive(Debug, PartialEq, Eq)]
pub struct VrfInterface {
    pub base: BaseInterface,
    pub vrf: Option<VrfConfig>,
}

/// A VXLAN interface.
#[derive(Debug, PartialEq, Eq)]
pub struct VxlanInterface {
    pub base: BaseInterface,
}

/// An interface of any kind.
#[derive(Debug, PartialEq, Eq)]
pub enum Interface {
    Bond(Box<BondInterface>),
    Dummy(Box<DummyInterface>),
    Ethernet(Box<EthernetInterface>),
    Hsr(Box<HsrInterface>),
    InfiniBand(Box<InfiniBandInterface>),
    IpVlan(Box<IpVlanInterface>),
    Ipsec(Box<IpsecInterface>),
    LinuxBridge(Box<LinuxBridgeInterface>),
    Loopback(Box<LoopbackInterface>),
    MacSec(Box<MacSecInterface>),
    MacVlan(Box<MacVlanInterface>),
    MacVtap(Box<MacVtapInterface>),
    OvsBridge(Box<OvsBridgeInterface>),
    OvsInterface(Box<OvsInterface>),
    Unknown(Box<UnknownInterface>),
    Vlan(Box<VlanInterface>),
    Vrf(Box<VrfInterface>),
    Vxlan(Box<VxlanInterface>),
}

/// The variant of an interface.
#[derive(Debug, Clone, Copy, PartialEq, Eq, Structural)]
pub enum InterfaceKind {
    Bond,
    Dummy,
    Ethernet,
    Hsr,
    InfiniBand,
    IpVlan,
    Ipsec,
    LinuxBridge,
    Loopback,
    MacSec,
    MacVlan,
    MacVtap,
    OvsBridge,
    OvsInterface,
    Unknown,
    Vlan,
    Vrf,
    Vxlan,
}

/// The variant of an interface.
pub open spec fn iface_kind(i: Interface) -> InterfaceKind {
    match i {
        Interface::Bond(_) => InterfaceKind::Bond,
        Interface::Dummy(_) => InterfaceKind::Dummy,
        Interface::Ethernet(_) => InterfaceKind::Ethernet,
        Interface::Hsr(_) => InterfaceKind::Hsr,
        Interface::InfiniBand(_) => InterfaceKind::InfiniBand,
        Interface::IpVlan(_) => InterfaceKind::IpVlan,
        Interface::Ipsec(_) => InterfaceKind::Ipsec,
        Interface::LinuxBridge(_) => InterfaceKind::LinuxBridge,
        Interface::Loopback(_) => InterfaceKind::Loopback,
        Interface::MacSec(_) => InterfaceKind::MacSec,
        Interface::MacVlan(_) => InterfaceKind::MacVlan,
        Interface::MacVtap(_) => InterfaceKind::MacVtap,
        Interface::OvsBridge(_) => InterfaceKind::OvsBridge,
        Interface::OvsInterface(_) => InterfaceKind::OvsInterface,
        Interface::Unknown(_) => InterfaceKind::Unknown,
        Interface::Vlan(_) => InterfaceKind::Vlan,
        Interface::Vrf(_) => InterfaceKind::Vrf,
        Interface::Vxlan(_) => InterfaceKind::Vxlan,
    }
}

/// The base record of an interface.
pub open spec fn iface_base(i: Interface) -> BaseInterface {
    match i {
        Interface::Bond(x) => x.base,
        Interface::Dummy(x) => x.base,
        Interface::Ethernet(x) => x.base,
        Interface::Hsr(x) => x.base,
        Interface::InfiniBand(x) => x.base,
        Interface::IpVlan(x) => x.base,
        Interface::Ipsec(x) => x.base,
        Interface::LinuxBridge(x) => x.base,
        Interface::Loopback(x) => x.base,
        Interface::MacSec(x) => x.base,
        Interface::MacVlan(x) => x.base,
        Interface::MacVtap(x) => x.base,
        Interface::OvsBridge(x) => x.base,
        Interface::OvsInterface(x) => x.base,
        Interface::Unknown(x) => x.base,
        Interface::Vlan(x) => x.base,
        Interface::Vrf(x) => x.base,
        Interface::Vxlan(x) => x.base,
    }
}

/// Whether an interface has nothing of what is particular to its kind.
pub open spec fn iface_plain(i: Interface) -> bool {
    match i {
        Interface::Bond(x) => x.bond is None,
        Interface::Dummy(_) => true,
        Interface::Ethernet(_) => true,
        Interface::Hsr(_) => true,
        Interface::InfiniBand(x) => x.ib is None,
        Interface::IpVlan(_) => true,
        Interface::Ipsec(x) => x.libreswan is None,
        Interface::LinuxBridge(x) => x.bridge is None,
        Interface::Loopback(_) => true,
        Interface::MacSec(x) => x.macsec is None,
        Interface::MacVlan(_) => true,
        Interface::MacVtap(_) => true,
        Interface::OvsBridge(_) => true,
        Interface::OvsInterface(_) => true,
        Interface::Unknown(_) => true,
        Interface::Vlan(_) => true,
        Interface::Vrf(x) => x.vrf is None,
        Interface::Vxlan(_) => true,
    }
}

/// Whether two interfaces are of the same variant and have the same of what
/// is particular to it.
pub open spec fn same_but_base(a: Interface, b: Interface) -> bool {
    match a {
        Interface::Bond(x) => b matches Interface::Bond(y) && x.bond == y.bond,
        Interface::Dummy(_) => b is Dummy,
        Interface::Ethernet(_) => b is Ethernet,
        Interface::Hsr(_) => b is Hsr,
        Interface::InfiniBand(x) => b matches Interface::InfiniBand(y) && x.ib == y.ib,
        Interface::IpVlan(_) => b is IpVlan,
        Interface::Ipsec(x) => b matches Interface::Ipsec(y) && x.libreswan == y.libreswan,
        Interface::LinuxBridge(x) => b matches Interface::LinuxBridge(y) && x.bridge == y.bridge,
        Interface::Loopback(_) => b is Loopback,
        Interface::MacSec(x) => b matches Interface::MacSec(y) && x.macsec == y.macsec,
        Interface::MacVlan(_) => b is MacVlan,
        Interface::MacVtap(_) => b is MacVtap,
        Interface::OvsBridge(_) => b is OvsBridge,
        Interface::OvsInterface(_) => b is OvsInterface,
        Interface::Unknown(_) => b is Unknown,
        Interface::Vlan(_) => b is Vlan,
        Interface::Vrf(x) => b matches Interface::Vrf(y) && x.vrf == y.vrf,
        Interface::Vxlan(_) => b is Vxlan,
    }
}

/// Whether interfaces of a variant exist without hardware behind them.
pub open spec fn kind_virtual(k: InterfaceKind) -> bool {
    k != InterfaceKind::Ethernet && k != InterfaceKind::Unknown && k != InterfaceKind::InfiniBand
        && k != InterfaceKind::Loopback
}

/// The variant in which an interface of a kind is held, where this library
/// holds interfaces of that kind.
pub open spec fn kind_of_type(t: InterfaceTypeView) -> Option<InterfaceKind> {
    match t {
        InterfaceTypeView::Bond => Some(InterfaceKind::Bond),
        InterfaceTypeView::LinuxBridge => Some(InterfaceKind::LinuxBridge),
        InterfaceTypeView::Dummy => Some(InterfaceKind::Dummy),
        InterfaceTypeView::Ethernet => Some(InterfaceKind::Ethernet),
        InterfaceTypeView::Hsr => Some(InterfaceKind::Hsr),
        InterfaceTypeView::Loopback => Some(InterfaceKind::Loopback),
        InterfaceTypeView::MacVlan => Some(InterfaceKind::MacVlan),
        InterfaceTypeView::MacVtap => Some(InterfaceKind::MacVtap),
        InterfaceTypeView::OvsBridge => Some(InterfaceKind::OvsBridge),
        InterfaceTypeView::OvsInterface => Some(InterfaceKind::OvsInterface),
        InterfaceTypeView::Vlan => Some(InterfaceKind::Vlan),
        InterfaceTypeView::Vrf => Some(InterfaceKind::Vrf),
        InterfaceTypeView::Vxlan => Some(InterfaceKind::Vxlan),
        InterfaceTypeView::InfiniBand => Some(InterfaceKind::InfiniBand),
        InterfaceTypeView::MacSec => Some(InterfaceKind::MacSec),
        InterfaceTypeView::IpVlan => Some(InterfaceKind::IpVlan),
        _ => None,
    }
}

fn restate(base: BaseInterface, state: InterfaceState) -> (r: BaseInterface)
    ensures
        r == (BaseInterface { state, ..base }),
{
    let mut b = base;
    b.state = state;
    b
}

fn redispatch(base: BaseInterface, dispatch: Option<crate::base_iface::DispatchConfig>) -> (r:
    BaseInterface)
    ensures
        r == (BaseInterface { dispatch, ..base }),
{
    let mut b = base;
    b.dispatch = dispatch;
    b
}

impl Interface {
    /// An interface with nothing of what is particular to its kind, held in
    /// the variant of the kind of `base`. None where this library holds no
    /// interfaces of that kind.
    pub fn from_base(base: BaseInterface) -> (r: Option<Interface>)
        ensures
            match r {
                Some(i) => {
                    &&& kind_of_type(base@.iface_type) == Some(iface_kind(i))
                    &&& iface_base(i) == base
                    &&& iface_plain(i)
                },
                None => kind_of_type(base@.iface_type) is None,
            },
    {
        match &base.iface_type {
            InterfaceType::Bond => Some(
                Interface::Bond(Box::new(BondInterface { base, bond: None })),
            ),
            InterfaceType::LinuxBridge => Some(
                Interface::LinuxBridge(Box::new(LinuxBridgeInterface { base, bridge: None })),
            ),
            InterfaceType::Dummy => Some(Interface::Dummy(Box::new(DummyInterface { base }))),
            InterfaceType::Ethernet => Some(
                Interface::Ethernet(Box::new(EthernetInterface { base })),
            ),
            InterfaceType::Hsr => Some(Interface::Hsr(Box::new(HsrInterface { base }))),
            InterfaceType::Loopback => Some(
                Interface::Loopback(Box::new(LoopbackInterface { base })),
            ),
            InterfaceType::MacVlan => Some(Interface::MacVlan(Box::new(MacVlanInterface { base }))),
            InterfaceType::MacVtap => Some(Interface::MacVtap(Box::new(MacVtapInterface { base }))),
            InterfaceType::OvsBridge => Some(
                Interface::OvsBridge(Box::new(OvsBridgeInterface { base })),
            ),
            InterfaceType::OvsInterface => Some(
                Interface::OvsInterface(Box::new(OvsInterface { base })),
            ),
            InterfaceType::Vlan => Some(Interface::Vlan(Box::new(VlanInterface { base }))),
            InterfaceType::Vrf => Some(Interface::Vrf(Box::new(VrfInterface { base, vrf: None }))),
            InterfaceType::Vxlan => Some(Interface::Vxlan(Box::new(VxlanInterface { base }))),
            InterfaceType::InfiniBand => Some(
                Interface::InfiniBand(Box::new(InfiniBandInterface { base, ib: None })),
            ),
            InterfaceType::MacSec => Some(
                Interface::MacSec(Box::new(MacSecInterface { base, macsec: None })),
            ),
            InterfaceType::IpVlan => Some(Interface::IpVlan(Box::new(IpVlanInterface { base }))),
            _ => None,
        }
    }

    /// The variant of the interface.
    pub fn kind(&self) -> (k: InterfaceKind)
        ensures
            k == iface_kind(*self),
    {
        match self {
            Interface::Bond(_) => InterfaceKind::Bond,
            Interface::Dummy(_) => InterfaceKind::Dummy,
            Interface::Ethernet(_) => InterfaceKind::Ethernet,
            Interface::Hsr(_) => InterfaceKind::Hsr,
            Interface::InfiniBand(_) => InterfaceKind::InfiniBand,
            Interface::IpVlan(_) => InterfaceKind::IpVlan,
            Interface::Ipsec(_) => InterfaceKind::Ipsec,
            Interface::LinuxBridge(_) => InterfaceKind::LinuxBridge,
            Interface::Loopback(_) => InterfaceKind::Loopback,
            Interface::MacSec(_) => InterfaceKind::MacSec,
            Interface::MacVlan(_) => InterfaceKind::MacVlan,
            Interface::MacVtap(_) => InterfaceKind::MacVtap,
            Interface::OvsBridge(_) => InterfaceKind::OvsBridge,
            Interface::OvsInterface(_) => InterfaceKind::OvsInterface,
            Interface::Unknown(_) => InterfaceKind::Unknown,
            Interface::Vlan(_) => InterfaceKind::Vlan,
            Interface::Vrf(_) => InterfaceKind::Vrf,
            Interface::Vxlan(_) => InterfaceKind::Vxlan,
        }
    }

    /// The base record of the interface.
    pub fn base_iface(&self) -> (base: &BaseInterface)
        ensures
            *base == iface_base(*self),
    {
        match self {
            Interface::Bond(x) => &x.base,
            Interface::Dummy(x) => &x.base,
            Interface::Ethernet(x) => &x.base,
            Interface::Hsr(x) => &x.base,
            Interface::InfiniBand(x) => &x.base,
            Interface::IpVlan(x) => &x.base,
            Interface::Ipsec(x) => &x.base,
            Interface::LinuxBridge(x) => &x.base,
            Interface::Loopback(x) => &x.base,
            Interface::MacSec(x) => &x.base,
            Interface::MacVlan(x) => &x.base,
            Interface::MacVtap(x) => &x.base,
            Interface::OvsBridge(x) => &x.base,
            Interface::OvsInterface(x) => &x.base,
            Interface::Unknown(x) => &x.base,
            Interface::Vlan(x) => &x.base,
            Interface::Vrf(x) => &x.base,
            Interface::Vxlan(x) => &x.base,
        }
    }

    /// The interface with another administrative state; nothing else
    /// changes.
    pub fn with_state(self, state: InterfaceState) -> (r: Interface)
        ensures
            same_but_base(self, r),
            iface_base(r) == (BaseInterface { state, ..iface_base(self) }),
    {
        match self {
            Interface::Bond(x) => {
                let BondInterface { base, bond } = *x;
                Interface::Bond(Box::new(BondInterface { base: restate(base, state), bond }))
            },
            Interface::Dummy(x) => {
                let DummyInterface { base } = *x;
                Interface::Dummy(Box::new(DummyInterface { base: restate(base, state) }))
            },
            Interface::Ethernet(x) => {
                let EthernetInterface { base } = *x;
                Interface::Ethernet(Box::new(EthernetInterface { base: restate(base, state) }))
            },
            Interface::Hsr(x) => {
                let HsrInterface { base } = *x;
                Interface::Hsr(Box::new(HsrInterface { base: restate(base, state) }))
            },
            Interface::InfiniBand(x) => {
                let InfiniBandInterface { base, ib } = *x;
                Interface::InfiniBand(Box::new(InfiniBandInterface { base: restate(base, state), ib }))
            },
            Interface::IpVlan(x) => {
                let IpVlanInterface { base } = *x;
                Interface::IpVlan(Box::new(IpVlanInterface { base: restate(base, state) }))
            },
            Interface::Ipsec(x) => {
                let IpsecInterface { base, libreswan } = *x;
                Interface::Ipsec(Box::new(IpsecInterface { base: restate(base, state), libreswan }))
            },
            Interface::LinuxBridge(x) => {
                let LinuxBridgeInterface { base, bridge } = *x;
                Interface::LinuxBridge(Box::new(LinuxBridgeInterface { base: restate(base, state), bridge }))
            },
            Interface::Loopback(x) => {
                let LoopbackInterface { base } = *x;
                Interface::Loopback(Box::new(LoopbackInterface { base: restate(base, state) }))
            },
            Interface::MacSec(x) => {
                let MacSecInterface { base, macsec } = *x;
                Interface::MacSec(Box::new(MacSecInterface { base: restate(base, state), macsec }))
            },
            Interface::MacVlan(x) => {
                let MacVlanInterface { base } = *x;
                Interface::MacVlan(Box::new(MacVlanInterface { base: restate(base, state) }))
            },
            Interface::MacVtap(x) => {
                let MacVtapInterface { base } = *x;
                Interface::MacVtap(Box::new(MacVtapInterface { base: restate(base, state) }))
            },
            Interface::OvsBridge(x) => {
                let OvsBridgeInterface { base } = *x;
                Interface::OvsBridge(Box::new(OvsBridgeInterface { base: restate(base, state) }))
            },
            Interface::OvsInterface(x) => {
                let OvsInterface { base } = *x;
                Interface::OvsInterface(Box::new(OvsInterface { base: restate(base, state) }))
            },
            Interface::Unknown(x) => {
                let UnknownInterface { base } = *x;
                Interface::Unknown(Box::new(UnknownInterface { base: restate(base, state) }))
            },
            Interface::Vlan(x) => {
                let VlanInterface { base } = *x;
                Interface::Vlan(Box::new(VlanInterface { base: restate(base, state) }))
            },
            Interface::Vrf(x) => {
                let VrfInterface { base, vrf } = *x;
                Interface::Vrf(Box::new(VrfInterface { base: restate(base, state), vrf }))
            },
            Interface::Vxlan(x) => {
                let VxlanInterface { base } = *x;
                Interface::Vxlan(Box::new(VxlanInterface { base: restate(base, state) }))
            },
        }
    }

    /// The interface with other dispatch scripts; nothing else changes.
    pub fn with_dispatch(self, dispatch: Option<crate::base_iface::DispatchConfig>) -> (r: Interface)
        ensures
            same_but_base(self, r),
            iface_base(r) == (BaseInterface { dispatch, ..iface_base(self) }),
    {
        match self {
            Interface::Bond(x) => {
                let BondInterface { base, bond } = *x;
                Interface::Bond(Box::new(BondInterface { base: redispatch(base, dispatch), bond }))
            },
            Interface::Dummy(x) => {
                let DummyInterface { base } = *x;
                Interface::Dummy(Box::new(DummyInterface { base: redispatch(base, dispatch) }))
            },
            Interface::Ethernet(x) => {
                let EthernetInterface { base } = *x;
                Interface::Ethernet(Box::new(EthernetInterface { base: redispatch(base, dispatch) }))
            },
            Interface::Hsr(x) => {
                let HsrInterface { base } = *x;
                Interface::Hsr(Box::new(HsrInterface { base: redispatch(base, dispatch) }))
            },
            Interface::InfiniBand(x) => {
                let InfiniBandInterface { base, ib } = *x;
                Interface::InfiniBand(Box::new(InfiniBandInterface { base: redispatch(base, dispatch), ib }))
            },
            Interface::IpVlan(x) => {
                let IpVlanInterface { base } = *x;
                Interface::IpVlan(Box::new(IpVlanInterface { base: redispatch(base, dispatch) }))
            },
            Interface::Ipsec(x) => {
                let IpsecInterface { base, libreswan } = *x;
                Interface::Ipsec(Box::new(IpsecInterface { base: redispatch(base, dispatch), libreswan }))
            },
            Interface::LinuxBridge(x) => {
                let LinuxBridgeInterface { base, bridge } = *x;
                Interface::LinuxBridge(Box::new(LinuxBridgeInterface { base: redispatch(base, dispatch), bridge }))
            },
            Interface::Loopback(x) => {
                let LoopbackInterface { base } = *x;
                Interface::Loopback(Box::new(LoopbackInterface { base: redispatch(base, dispatch) }))
            },
            Interface::MacSec(x) => {
                let MacSecInterface { base, macsec } = *x;
                Interface::MacSec(Box::new(MacSecInterface { base: redispatch(base, dispatch), macsec }))
            },
            Interface::MacVlan(x) => {
                let MacVlanInterface { base } = *x;
                Interface::MacVlan(Box::new(MacVlanInterface { base: redispatch(base, dispatch) }))
            },
            Interface::MacVtap(x) => {
                let MacVtapInterface { base } = *x;
                Interface::MacVtap(Box::new(MacVtapInterface { base: redispatch(base, dispatch) }))
            },
            Interface::OvsBridge(x) => {
                let OvsBridgeInterface { base } = *x;
                Interface::OvsBridge(Box::new(OvsBridgeInterface { base: redispatch(base, dispatch) }))
            },
            Interface::OvsInterface(x) => {
                let OvsInterface { base } = *x;
                Interface::OvsInterface(Box::new(OvsInterface { base: redispatch(base, dispatch) }))
            },
            Interface::Unknown(x) => {
                let UnknownInterface { base } = *x;
                Interface::Unknown(Box::new(UnknownInterface { base: redispatch(base, dispatch) }))
            },
            Interface::Vlan(x) => {
                let VlanInterface { base } = *x;
                Interface::Vlan(Box::new(VlanInterface { base: redispatch(base, dispatch) }))
            },
            Interface::Vrf(x) => {
                let VrfInterface { base, vrf } = *x;
                Interface::Vrf(Box::new(VrfInterface { base: redispatch(base, dispatch), vrf }))
            },
            Interface::Vxlan(x) => {
                let VxlanInterface { base } = *x;
                Interface::Vxlan(Box::new(VxlanInterface { base: redispatch(base, dispatch) }))
            },
        }
    }

    /// The name of the interface.
    pub fn name(&self) -> (n: &String)
        ensures
            n@ == iface_base(*self).name@,
    {
        &self.base_iface().name
    }

    /// The kind of the interface.
    pub fn iface_type(&self) -> (t: &InterfaceType)
        ensures
            t@ == iface_base(*self).iface_type@,
    {
        &self.base_iface().iface_type
    }

    /// Whether the interface is listed for removal.
    pub fn is_absent(&self) -> (b: bool)
        ensures
            b == (iface_base(*self).state == InterfaceState::Absent),
    {
        self.base_iface().state == InterfaceState::Absent
    }

    /// Whether the interface is to be down.
    pub fn is_down(&self) -> (b: bool)
        ensures
            b == (iface_base(*self).state == InterfaceState::Down),
    {
        self.base_iface().state == InterfaceState::Down
    }

    /// Whether the interface exists without hardware behind it.
    pub fn is_virtual(&self) -> (b: bool)
        ensures
            b == kind_virtual(iface_kind(*self)),
    {
        match self {
            Interface::Ethernet(_) | Interface::Unknown(_) | Interface::InfiniBand(_)
            | Interface::Loopback(_) => false,
            _ => true,
        }
    }

    /// Whether the interface exists in user space only.
    pub fn is_userspace(&self) -> (b: bool)
        ensures
            b == crate::base_iface::type_userspace(iface_base(*self).iface_type@),
    {
        self.base_iface().iface_type.is_userspace()
    }
}

/// Whether an interface exists in user space only.
pub open spec fn iface_userspace(i: Interface) -> bool {
    crate::base_iface::type_userspace(iface_base(i).iface_type@)
}

/// Whether two interfaces have the same key within a snapshot: the name, and
/// for interfaces of user space the kind as well.
pub open spec fn same_key(a: Interface, b: Interface) -> bool {
    let x = iface_base(a);
    let y = iface_base(b);
    x.name@ == y.name@ && (crate::base_iface::type_userspace(x.iface_type@)
        ==> x.iface_type@ == y.iface_type@)
}

/// The position of the first interface of `s` with the key of `i`, if there
/// is one.
pub open spec fn key_position(s: Seq<Interface>, i: Interface) -> Option<int>
    decreases s.len(),
{
    if s.len() == 0 {
        None
    } else {
        match key_position(s.drop_last(), i) {
            Some(k) => Some(k),
            None => if same_key(s.last(), i) {
                Some(s.len() - 1)
            } else {
                None
            },
        }
    }
}

/// `s` with `i` in the place of the first interface with its key, or at the
/// end where there is none.
pub open spec fn put_iface(s: Seq<Interface>, i: Interface) -> Seq<Interface> {
    match key_position(s, i) {
        Some(k) => s.update(k, i),
        None => s.push(i),
    }
}

/// The interfaces of a snapshot: those of the kernel, keyed by name, and
/// those of user space, keyed by name and kind.
#[derive(Debug, PartialEq, Eq)]
pub struct Interfaces {
    pub kernel_ifaces: Vec<Interface>,
    pub user_ifaces: Vec<Interface>,
}

/// What `key_position` finds is a position of an interface with that key,
/// and no earlier one has it.
pub proof fn lemma_key_position(s: Seq<Interface>, i: Interface)
    ensures
        match key_position(s, i) {
            Some(k) => 0 <= k < s.len() && same_key(s[k], i) && forall|j: int|
                0 <= j < k ==> !same_key(#[trigger] s[j], i),
            None => forall|j: int| 0 <= j < s.len() ==> !same_key(#[trigger] s[j], i),
        },
    decreases s.len(),
{
    if s.len() > 0 {
        lemma_key_position(s.drop_last(), i);
        assert forall|j: int| 0 <= j < s.len() - 1 implies s.drop_last()[j] == s[j] by {}
        match key_position(s.drop_last(), i) {
            Some(k) => {
                assert forall|j: int| 0 <= j < k implies !same_key(#[trigger] s[j], i) by {
                    assert(s.drop_last()[j] == s[j]);
                }
            },
            None => {
                assert forall|j: int| 0 <= j < s.len() - 1 implies !same_key(
                    #[trigger] s[j],
                    i,
                ) by {
                    assert(s.drop_last()[j] == s[j]);
                }
            },
        }
    }
}

fn find_key(list: &Vec<Interface>, iface: &Interface) -> (at: Option<usize>)
    ensures
        match at {
            Some(k) => key_position(list@, *iface) == Some(k as int),
            None => key_position(list@, *iface) is None,
        },
{
    let userspace = iface.is_userspace();
    let mut k: usize = 0;
    assert(list@.take(0) =~= Seq::<Interface>::empty());
    while k < list.len()
        invariant
            k <= list.len(),
            userspace == crate::base_iface::type_userspace(iface_base(*iface).iface_type@),
            key_position(list@.take(k as int), *iface) is None,
        decreases list.len() - k,
    {
        let other = &list[k];
        proof {
            assert(list@.take(k as int + 1).drop_last() =~= list@.take(k as int));
            assert(list@.take(k as int + 1).last() == list@[k as int]);
        }
        let matches = string_eq(other.name(), iface.name()) && (!other.is_userspace()
            || other.iface_type().same(iface.iface_type()));
        if matches {
            proof {
                lemma_found_stays(list@, k as int + 1, *iface);
            }
            return Some(k);
        }
        k += 1;
    }
    assert(list@.take(list.len() as int) =~= list@);
    None
}

proof fn lemma_found_stays(s: Seq<Interface>, n: int, i: Interface)
    requires
        0 <= n <= s.len(),
        key_position(s.take(n), i) is Some,
    ensures
        key_position(s, i) == key_position(s.take(n), i),
    decreases s.len() - n,
{
    if n < s.len() {
        assert(s.take(n + 1).drop_last() =~= s.take(n));
        lemma_found_stays(s, n + 1, i);
    } else {
        assert(s.take(n) =~= s);
    }
}

/// Whether a list holds no two interfaces with the same key, and only
/// interfaces of user space or only interfaces of the kernel.
pub open spec fn keyed(s: Seq<Interface>, userspace: bool) -> bool {
    &&& forall|i: int| 0 <= i < s.len() ==> iface_userspace(#[trigger] s[i]) == userspace
    &&& forall|i: int, j: int|
        0 <= i < j < s.len() ==> !same_key(#[trigger] s[i], #[trigger] s[j])
}

/// Putting an interface into a keyed list leaves the list keyed.
pub proof fn lemma_put_keeps_keyed(s: Seq<Interface>, i: Interface, userspace: bool)
    requires
        keyed(s, userspace),
        iface_userspace(i) == userspace,
    ensures
        keyed(put_iface(s, i), userspace),
{
    lemma_key_position(s, i);
    let t = put_iface(s, i);
    match key_position(s, i) {
        Some(k) => {
            assert forall|a: int, b: int| 0 <= a < b < t.len() implies !same_key(
                #[trigger] t[a],
                #[trigger] t[b],
            ) by {
                if a == k {
                    assert(!same_key(s[k], s[b]));
                } else if b == k {
                    assert(!same_key(s[a], s[k]));
                } else {
                    assert(!same_key(s[a], s[b]));
                }
            }
        },
        None => {
            assert forall|a: int, b: int| 0 <= a < b < t.len() implies !same_key(
                #[trigger] t[a],
                #[trigger] t[b],
            ) by {
                if b < s.len() {
                    assert(!same_key(s[a], s[b]));
                } else {
                    assert(!same_key(s[a], i));
                }
            }
        },
    }
}

impl Interfaces {
    /// Whether no key occurs twice, and the interfaces of user space stand
    /// apart from those of the kernel.
    pub open spec fn wf(&self) -> bool {
        keyed(self.kernel_ifaces@, false) && keyed(self.user_ifaces@, true)
    }

    /// No interfaces.
    pub fn new() -> (r: Self)
        ensures
            r.kernel_ifaces@.len() == 0,
            r.user_ifaces@.len() == 0,
            r.wf(),
    {
        Interfaces { kernel_ifaces: Vec::new(), user_ifaces: Vec::new() }
    }

    /// Adds an interface, in place of the one that has its key where there is
    /// one: to the interfaces of user space where it is one, else to those of
    /// the kernel.
    pub fn push(&mut self, iface: Interface)
        ensures
            final(self).user_ifaces@ == (if iface_userspace(iface) {
                put_iface(old(self).user_ifaces@, iface)
            } else {
                old(self).user_ifaces@
            }),
            final(self).kernel_ifaces@ == (if iface_userspace(iface) {
                old(self).kernel_ifaces@
            } else {
                put_iface(old(self).kernel_ifaces@, iface)
            }),
            old(self).wf() ==> final(self).wf(),
    {
        proof {
            if self.wf() {
                if iface_userspace(iface) {
                    lemma_put_keeps_keyed(self.user_ifaces@, iface, true);
                } else {
                    lemma_put_keeps_keyed(self.kernel_ifaces@, iface, false);
                }
            }
        }
        if iface.is_userspace() {
            match find_key(&self.user_ifaces, &iface) {
                Some(k) => {
                    proof {
                        lemma_key_position(self.user_ifaces@, iface);
                    }
                    self.user_ifaces.set(k, iface);
                },
                None => {
                    self.user_ifaces.push(iface);
                },
            }
        } else {
            match find_key(&self.kernel_ifaces, &iface) {
                Some(k) => {
                    proof {
                        lemma_key_position(self.kernel_ifaces@, iface);
                    }
                    self.kernel_ifaces.set(k, iface);
                },
                None => {
                    self.kernel_ifaces.push(iface);
                },
            }
        }
    }
}

} // verus!
