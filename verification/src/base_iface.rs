//! The attributes that every interface has, whatever its kind, and the small
//! configuration blocks they are made of.

use vstd::prelude::*;
use crate::names::clone_names;
use crate::strmap::StrMap;
use crate::text::{Text, clone_opt_string, clone_opt_strings, string_eq};

verus! {

/// The kind of an interface.
#[derive(Debug, PartialEq, Eq)]
pub enum InterfaceType {
    Bond,
    LinuxBridge,
    Dummy,
    Ethernet,
    Hsr,
    Loopback,
    MacVlan,
    MacVtap,
    OvsBridge,
    OvsInterface,
    Veth,
    Vlan,
    Vrf,
    Vxlan,
    InfiniBand,
    Tun,
    MacSec,
    Ipsec,
    Xfrm,
    IpVlan,
    /// The description did not say: never a wish for an unknown kind.
    Unknown,
    Other(String),
}

/// The mathematical form of `InterfaceType`.
pub enum InterfaceTypeView {
    Bond,
    LinuxBridge,
    Dummy,
    Ethernet,
    Hsr,
    Loopback,
    MacVlan,
    MacVtap,
    OvsBridge,
    OvsInterface,
    Veth,
    Vlan,
    Vrf,
    Vxlan,
    InfiniBand,
    Tun,
    MacSec,
    Ipsec,
    Xfrm,
    IpVlan,
    Unknown,
    Other(Text),
}

impl DeepView for InterfaceType {
    type V = InterfaceTypeView;

    open spec fn deep_view(&self) -> InterfaceTypeView {
        match self {
            InterfaceType::Bond => InterfaceTypeView::Bond,
            InterfaceType::LinuxBridge => InterfaceTypeView::LinuxBridge,
            InterfaceType::Dummy => InterfaceTypeView::Dummy,
            InterfaceType::Ethernet => InterfaceTypeView::Ethernet,
            InterfaceType::Hsr => InterfaceTypeView::Hsr,
            InterfaceType::Loopback => InterfaceTypeView::Loopback,
            InterfaceType::MacVlan => InterfaceTypeView::MacVlan,
            InterfaceType::MacVtap => InterfaceTypeView::MacVtap,
            InterfaceType::OvsBridge => InterfaceTypeView::OvsBridge,
            InterfaceType::OvsInterface => InterfaceTypeView::OvsInterface,
            InterfaceType::Veth => InterfaceTypeView::Veth,
            InterfaceType::Vlan => InterfaceTypeView::Vlan,
            InterfaceType::Vrf => InterfaceTypeView::Vrf,
            InterfaceType::Vxlan => InterfaceTypeView::Vxlan,
            InterfaceType::InfiniBand => InterfaceTypeView::InfiniBand,
            InterfaceType::Tun => InterfaceTypeView::Tun,
            InterfaceType::MacSec => InterfaceTypeView::MacSec,
            InterfaceType::Ipsec => InterfaceTypeView::Ipsec,
            InterfaceType::Xfrm => InterfaceTypeView::Xfrm,
            InterfaceType::IpVlan => InterfaceTypeView::IpVlan,
            InterfaceType::Unknown => InterfaceTypeView::Unknown,
            InterfaceType::Other(s) => InterfaceTypeView::Other(s@),
        }
    }
}

impl View for InterfaceType {
    type V = InterfaceTypeView;

    open spec fn view(&self) -> InterfaceTypeView {
        self.deep_view()
    }
}

impl Clone for InterfaceType {
    fn clone(&self) -> (copy: Self)
        ensures
            copy@ == self@,
    {
        match self {
            InterfaceType::Bond => InterfaceType::Bond,
            InterfaceType::LinuxBridge => InterfaceType::LinuxBridge,
            InterfaceType::Dummy => InterfaceType::Dummy,
            InterfaceType::Ethernet => InterfaceType::Ethernet,
            InterfaceType::Hsr => InterfaceType::Hsr,
            InterfaceType::Loopback => InterfaceType::Loopback,
            InterfaceType::MacVlan => InterfaceType::MacVlan,
            InterfaceType::MacVtap => InterfaceType::MacVtap,
            InterfaceType::OvsBridge => InterfaceType::OvsBridge,
            InterfaceType::OvsInterface => InterfaceType::OvsInterface,
            InterfaceType::Veth => InterfaceType::Veth,
            InterfaceType::Vlan => InterfaceType::Vlan,
            InterfaceType::Vrf => InterfaceType::Vrf,
            InterfaceType::Vxlan => InterfaceType::Vxlan,
            InterfaceType::InfiniBand => InterfaceType::InfiniBand,
            InterfaceType::Tun => InterfaceType::Tun,
            InterfaceType::MacSec => InterfaceType::MacSec,
            InterfaceType::Ipsec => InterfaceType::Ipsec,
            InterfaceType::Xfrm => InterfaceType::Xfrm,
            InterfaceType::IpVlan => InterfaceType::IpVlan,
            InterfaceType::Unknown => InterfaceType::Unknown,
            InterfaceType::Other(s) => InterfaceType::Other(s.clone()),
        }
    }
}

/// The position of a kind in the declaration of `InterfaceType`.
pub open spec fn type_rank(t: InterfaceTypeView) -> int {
    match t {
        InterfaceTypeView::Bond => 0,
        InterfaceTypeView::LinuxBridge => 1,
        InterfaceTypeView::Dummy => 2,
        InterfaceTypeView::Ethernet => 3,
        InterfaceTypeView::Hsr => 4,
        InterfaceTypeView::Loopback => 5,
        InterfaceTypeView::MacVlan => 6,
        InterfaceTypeView::MacVtap => 7,
        InterfaceTypeView::OvsBridge => 8,
        InterfaceTypeView::OvsInterface => 9,
        InterfaceTypeView::Veth => 10,
        InterfaceTypeView::Vlan => 11,
        InterfaceTypeView::Vrf => 12,
        InterfaceTypeView::Vxlan => 13,
        InterfaceTypeView::InfiniBand => 14,
        InterfaceTypeView::Tun => 15,
        InterfaceTypeView::MacSec => 16,
        InterfaceTypeView::Ipsec => 17,
        InterfaceTypeView::Xfrm => 18,
        InterfaceTypeView::IpVlan => 19,
        InterfaceTypeView::Unknown => 20,
        InterfaceTypeView::Other(_) => 21,
    }
}

/// Whether this library manages interfaces of kind `t`.
pub open spec fn type_supported(t: InterfaceTypeView) -> bool {
    t != InterfaceTypeView::Tun && t != InterfaceTypeView::Unknown && !(t is Other)
}

/// Whether interfaces of kind `t` exist in user space only.
pub open spec fn type_userspace(t: InterfaceTypeView) -> bool {
    t == InterfaceTypeView::OvsBridge || t == InterfaceTypeView::Ipsec || t is Other
}

/// The name of a kind.
pub open spec fn kind_name(t: InterfaceTypeView) -> Text {
    match t {
        InterfaceTypeView::Bond => "bond"@,
        InterfaceTypeView::LinuxBridge => "linux-bridge"@,
        InterfaceTypeView::Dummy => "dummy"@,
        InterfaceTypeView::Ethernet => "ethernet"@,
        InterfaceTypeView::Hsr => "hsr"@,
        InterfaceTypeView::Loopback => "loopback"@,
        InterfaceTypeView::MacVlan => "mac-vlan"@,
        InterfaceTypeView::MacVtap => "mac-vtap"@,
        InterfaceTypeView::OvsBridge => "ovs-bridge"@,
        InterfaceTypeView::OvsInterface => "ovs-interface"@,
        InterfaceTypeView::Veth => "veth"@,
        InterfaceTypeView::Vlan => "vlan"@,
        InterfaceTypeView::Vrf => "vrf"@,
        InterfaceTypeView::Vxlan => "vxlan"@,
        InterfaceTypeView::InfiniBand => "infiniband"@,
        InterfaceTypeView::Tun => "tun"@,
        InterfaceTypeView::MacSec => "macsec"@,
        InterfaceTypeView::Ipsec => "ipsec"@,
        InterfaceTypeView::Xfrm => "xfrm"@,
        InterfaceTypeView::IpVlan => "ipvlan"@,
        InterfaceTypeView::Unknown => "unknown"@,
        InterfaceTypeView::Other(s) => s,
    }
}

impl InterfaceType {
    /// The name of the kind.
    pub fn to_string(&self) -> (name: String)
        ensures
            name@ == kind_name(self@),
    {
        match self {
            InterfaceType::Bond => "bond".to_owned(),
            InterfaceType::LinuxBridge => "linux-bridge".to_owned(),
            InterfaceType::Dummy => "dummy".to_owned(),
            InterfaceType::Ethernet => "ethernet".to_owned(),
            InterfaceType::Hsr => "hsr".to_owned(),
            InterfaceType::Loopback => "loopback".to_owned(),
            InterfaceType::MacVlan => "mac-vlan".to_owned(),
            InterfaceType::MacVtap => "mac-vtap".to_owned(),
            InterfaceType::OvsBridge => "ovs-bridge".to_owned(),
            InterfaceType::OvsInterface => "ovs-interface".to_owned(),
            InterfaceType::Veth => "veth".to_owned(),
            InterfaceType::Vlan => "vlan".to_owned(),
            InterfaceType::Vrf => "vrf".to_owned(),
            InterfaceType::Vxlan => "vxlan".to_owned(),
            InterfaceType::InfiniBand => "infiniband".to_owned(),
            InterfaceType::Tun => "tun".to_owned(),
            InterfaceType::MacSec => "macsec".to_owned(),
            InterfaceType::Ipsec => "ipsec".to_owned(),
            InterfaceType::Xfrm => "xfrm".to_owned(),
            InterfaceType::IpVlan => "ipvlan".to_owned(),
            InterfaceType::Unknown => "unknown".to_owned(),
            InterfaceType::Other(s) => s.clone(),
        }
    }

    fn rank(&self) -> (r: u8)
        ensures
            r == type_rank(self@),
    {
        match self {
            InterfaceType::Bond => 0,
            InterfaceType::LinuxBridge => 1,
            InterfaceType::Dummy => 2,
            InterfaceType::Ethernet => 3,
            InterfaceType::Hsr => 4,
            InterfaceType::Loopback => 5,
            InterfaceType::MacVlan => 6,
            InterfaceType::MacVtap => 7,
            InterfaceType::OvsBridge => 8,
            InterfaceType::OvsInterface => 9,
            InterfaceType::Veth => 10,
            InterfaceType::Vlan => 11,
            InterfaceType::Vrf => 12,
            InterfaceType::Vxlan => 13,
            InterfaceType::InfiniBand => 14,
            InterfaceType::Tun => 15,
            InterfaceType::MacSec => 16,
            InterfaceType::Ipsec => 17,
            InterfaceType::Xfrm => 18,
            InterfaceType::IpVlan => 19,
            InterfaceType::Unknown => 20,
            InterfaceType::Other(_) => 21,
        }
    }

    /// Whether two kinds are the same.
    pub fn same(&self, other: &InterfaceType) -> (eq: bool)
        ensures
            eq == (self@ == other@),
    {
        match self {
            InterfaceType::Other(a) => match other {
                InterfaceType::Other(b) => string_eq(a, b),
                _ => false,
            },
            _ => self.rank() == other.rank(),
        }
    }

    /// Whether the kind is `Unknown`.
    pub fn is_unknown(&self) -> (b: bool)
        ensures
            b == (self@ == InterfaceTypeView::Unknown),
    {
        self.rank() == 20
    }

    /// Whether this library manages interfaces of this kind.
    pub fn is_supported(&self) -> (b: bool)
        ensures
            b == type_supported(self@),
    {
        let r = self.rank();
        r != 15 && r != 20 && r != 21
    }

    /// Whether interfaces of this kind exist in user space only.
    pub fn is_userspace(&self) -> (b: bool)
        ensures
            b == type_userspace(self@),
    {
        let r = self.rank();
        r == 8 || r == 17 || r == 21
    }
}

/// The administrative state of an interface.
#[derive(Debug, Clone, Copy, PartialEq, Eq, Structural)]
pub enum InterfaceState {
    Up,
    Down,
    /// Listed for removal.
    Absent,
    Unknown,
    /// Left alone by this library.
    Ignore,
}

/// By what a description finds its interface.
#[derive(Debug, Clone, Copy, PartialEq, Eq, Structural)]
pub enum InterfaceIdentifier {
    Name,
    MacAddress,
}

/// For which address families activation waits for an address.
#[derive(Debug, Clone, Copy, PartialEq, Eq, Structural)]
pub enum WaitIp {
    Any,
    Ipv4,
    Ipv6,
    Ipv4AndIpv6,
}

/// A flag of multipath TCP on the addresses of an interface.
#[derive(Debug, Clone, Copy, PartialEq, Eq, Structural)]
pub enum MptcpAddressFlag {
    Signal,
    Subflow,
    Backup,
    Fullmesh,
}

impl DeepView for MptcpAddressFlag {
    type V = MptcpAddressFlag;

    open spec fn deep_view(&self) -> MptcpAddressFlag {
        *self
    }
}

/// Multipath TCP settings.
#[derive(Debug, PartialEq, Eq)]
pub struct MptcpConfig {
    pub address_flags: Option<Vec<MptcpAddressFlag>>,
}

impl DeepView for MptcpConfig {
    type V = Option<Seq<MptcpAddressFlag>>;

    open spec fn deep_view(&self) -> Option<Seq<MptcpAddressFlag>> {
        self.address_flags.deep_view()
    }
}

impl Clone for MptcpConfig {
    fn clone(&self) -> (copy: Self)
        ensures
            copy.deep_view() == self.deep_view(),
    {
        match &self.address_flags {
            Some(flags) => {
                let f = flags.clone();
                assert(f.deep_view() =~= flags.deep_view());
                MptcpConfig { address_flags: Some(f) }
            },
            None => MptcpConfig { address_flags: None },
        }
    }
}

/// Pause settings of the ethtool block.
#[derive(Debug, Clone, Copy, PartialEq, Eq, Structural)]
pub struct EthtoolConfig {
    pub pause_autoneg: Option<bool>,
    pub pause_rx: Option<bool>,
    pub pause_tx: Option<bool>,
}

impl DeepView for EthtoolConfig {
    type V = EthtoolConfig;

    open spec fn deep_view(&self) -> EthtoolConfig {
        *self
    }
}

/// What the Open vSwitch database holds for an interface.
#[derive(Debug, PartialEq, Eq)]
pub struct OvsDbIfaceConfig {
    pub external_ids: Option<StrMap>,
    pub other_config: Option<StrMap>,
}

/// The mathematical form of `OvsDbIfaceConfig`.
pub struct OvsDbIfaceConfigView {
    pub external_ids: Option<Map<Text, Text>>,
    pub other_config: Option<Map<Text, Text>>,
}

impl DeepView for OvsDbIfaceConfig {
    type V = OvsDbIfaceConfigView;

    open spec fn deep_view(&self) -> OvsDbIfaceConfigView {
        OvsDbIfaceConfigView {
            external_ids: self.external_ids.deep_view(),
            other_config: self.other_config.deep_view(),
        }
    }
}

impl Clone for OvsDbIfaceConfig {
    fn clone(&self) -> (copy: Self)
        ensures
            copy.deep_view() == self.deep_view(),
    {
        OvsDbIfaceConfig {
            external_ids: self.external_ids.clone(),
            other_config: self.other_config.clone(),
        }
    }
}

/// 802.1X authentication settings, certificates and keys as file paths.
#[derive(Debug, PartialEq, Eq)]
pub struct Ieee8021XConfig {
    pub identity: Option<String>,
    pub eap: Option<Vec<String>>,
    pub private_key: Option<String>,
    pub client_cert: Option<String>,
    pub ca_cert: Option<String>,
    pub private_key_password: Option<String>,
}

/// The mathematical form of `Ieee8021XConfig`.
pub struct Ieee8021XConfigView {
    pub identity: Option<Text>,
    pub eap: Option<Seq<Text>>,
    pub private_key: Option<Text>,
    pub client_cert: Option<Text>,
    pub ca_cert: Option<Text>,
    pub private_key_password: Option<Text>,
}

impl DeepView for Ieee8021XConfig {
    type V = Ieee8021XConfigView;

    open spec fn deep_view(&self) -> Ieee8021XConfigView {
        Ieee8021XConfigView {
            identity: self.identity.deep_view(),
            eap: self.eap.deep_view(),
            private_key: self.private_key.deep_view(),
            client_cert: self.client_cert.deep_view(),
            ca_cert: self.ca_cert.deep_view(),
            private_key_password: self.private_key_password.deep_view(),
        }
    }
}

impl Clone for Ieee8021XConfig {
    fn clone(&self) -> (copy: Self)
        ensures
            copy.deep_view() == self.deep_view(),
    {
        Ieee8021XConfig {
            identity: clone_opt_string(&self.identity),
            eap: clone_opt_strings(&self.eap),
            private_key: clone_opt_string(&self.private_key),
            client_cert: clone_opt_string(&self.client_cert),
            ca_cert: clone_opt_string(&self.ca_cert),
            private_key_password: clone_opt_string(&self.private_key_password),
        }
    }
}

/// A neighbour seen over LLDP.
#[derive(Debug, PartialEq, Eq)]
pub struct LldpNeighbor {
    pub chassis_id: Option<String>,
    pub port_id: Option<String>,
    pub system_name: Option<String>,
}

/// The mathematical form of `LldpNeighbor`.
pub struct LldpNeighborView {
    pub chassis_id: Option<Text>,
    pub port_id: Option<Text>,
    pub system_name: Option<Text>,
}

impl DeepView for LldpNeighbor {
    type V = LldpNeighborView;

    open spec fn deep_view(&self) -> LldpNeighborView {
        LldpNeighborView {
            chassis_id: self.chassis_id.deep_view(),
            port_id: self.port_id.deep_view(),
            system_name: self.system_name.deep_view(),
        }
    }
}

impl Clone for LldpNeighbor {
    fn clone(&self) -> (copy: Self)
        ensures
            copy.deep_view() == self.deep_view(),
    {
        LldpNeighbor {
            chassis_id: clone_opt_string(&self.chassis_id),
            port_id: clone_opt_string(&self.port_id),
            system_name: clone_opt_string(&self.system_name),
        }
    }
}

/// Whether LLDP runs on an interface, and the neighbours it saw.
#[derive(Debug, PartialEq, Eq)]
pub struct LldpConfig {
    pub enabled: bool,
    pub neighbors: Vec<LldpNeighbor>,
}

/// The mathematical form of `LldpConfig`.
pub struct LldpConfigView {
    pub enabled: bool,
    pub neighbors: Seq<LldpNeighborView>,
}

impl DeepView for LldpConfig {
    type V = LldpConfigView;

    open spec fn deep_view(&self) -> LldpConfigView {
        LldpConfigView { enabled: self.enabled, neighbors: self.neighbors.deep_view() }
    }
}

impl Clone for LldpConfig {
    fn clone(&self) -> (copy: Self)
        ensures
            copy.deep_view() == self.deep_view(),
    {
        let neighbors = self.neighbors.clone();
        assert(neighbors.deep_view() =~= self.neighbors.deep_view());
        LldpConfig { enabled: self.enabled, neighbors }
    }
}

/// Scripts run after an interface is activated or deactivated.
#[derive(Debug, PartialEq, Eq)]
pub struct DispatchConfig {
    pub post_activation: Option<String>,
    pub post_deactivation: Option<String>,
}

/// The mathematical form of `DispatchConfig`.
pub struct DispatchConfigView {
    pub post_activation: Option<Text>,
    pub post_deactivation: Option<Text>,
}

impl DeepView for DispatchConfig {
    type V = DispatchConfigView;

    open spec fn deep_view(&self) -> DispatchConfigView {
        DispatchConfigView {
            post_activation: self.post_activation.deep_view(),
            post_deactivation: self.post_deactivation.deep_view(),
        }
    }
}

impl Clone for DispatchConfig {
    fn clone(&self) -> (copy: Self)
        ensures
            copy.deep_view() == self.deep_view(),
    {
        DispatchConfig {
            post_activation: clone_opt_string(&self.post_activation),
            post_deactivation: clone_opt_string(&self.post_deactivation),
        }
    }
}

/// The IP configuration of one address family on an interface.
#[derive(Debug, PartialEq, Eq)]
pub struct InterfaceIp {
    pub enabled: bool,
    pub dhcp: Option<bool>,
    pub autoconf: Option<bool>,
    /// Static addresses, each as address, slash, prefix length.
    pub addresses: Option<Vec<String>>,
    /// The names of the attributes that the description set.
    pub prop_list: Vec<&'static str>,
}

/// The mathematical form of `InterfaceIp`: the list of set attributes is a set.
#[verifier::ext_equal]
pub struct InterfaceIpView {
    pub enabled: bool,
    pub dhcp: Option<bool>,
    pub autoconf: Option<bool>,
    pub addresses: Option<Seq<Text>>,
    pub touched: Set<Text>,
}

impl DeepView for InterfaceIp {
    type V = InterfaceIpView;

    open spec fn deep_view(&self) -> InterfaceIpView {
        InterfaceIpView {
            enabled: self.enabled,
            dhcp: self.dhcp,
            autoconf: self.autoconf,
            addresses: self.addresses.deep_view(),
            touched: self.prop_list.deep_view().to_set(),
        }
    }
}

impl View for InterfaceIp {
    type V = InterfaceIpView;

    open spec fn view(&self) -> InterfaceIpView {
        self.deep_view()
    }
}

impl Clone for InterfaceIp {
    fn clone(&self) -> (copy: Self)
        ensures
            copy@ == self@,
            copy.prop_list.deep_view() == self.prop_list.deep_view(),
    {
        InterfaceIp {
            enabled: self.enabled,
            dhcp: self.dhcp,
            autoconf: self.autoconf,
            addresses: clone_opt_strings(&self.addresses),
            prop_list: clone_names(&self.prop_list),
        }
    }
}

impl InterfaceIp {
    /// A disabled configuration in which nothing is set.
    pub fn new() -> (ip: Self)
        ensures
            ip@ == (InterfaceIpView {
                enabled: false,
                dhcp: None,
                autoconf: None,
                addresses: None,
                touched: Set::<Text>::empty(),
            }),
            ip.prop_list@.len() == 0,
    {
        let ip = InterfaceIp {
            enabled: false,
            dhcp: None,
            autoconf: None,
            addresses: None,
            prop_list: Vec::new(),
        };
        assert(ip.prop_list.deep_view() =~= Seq::<Text>::empty());
        assert(ip@.touched =~= Set::<Text>::empty());
        ip
    }
}

/// The attributes common to interfaces of every kind.
#[derive(Debug, PartialEq, Eq)]
pub struct BaseInterface {
    /// The key of the interface within a snapshot.
    pub name: String,
    /// The names of the attributes that the description set.
    pub prop_list: Vec<&'static str>,
    pub description: Option<String>,
    pub iface_type: InterfaceType,
    pub state: InterfaceState,
    pub identifier: Option<InterfaceIdentifier>,
    pub profile_name: Option<String>,
    pub mac_address: Option<String>,
    pub permanent_mac_address: Option<String>,
    pub mtu: Option<u64>,
    pub min_mtu: Option<u64>,
    pub max_mtu: Option<u64>,
    pub wait_ip: Option<WaitIp>,
    pub ipv4: Option<InterfaceIp>,
    pub ipv6: Option<InterfaceIp>,
    pub mptcp: Option<MptcpConfig>,
    /// The controller this port names; the controller does not own the port.
    pub controller: Option<String>,
    pub controller_type: Option<InterfaceType>,
    pub accept_all_mac_addresses: Option<bool>,
    pub ovsdb: Option<OvsDbIfaceConfig>,
    pub ieee8021x: Option<Ieee8021XConfig>,
    pub lldp: Option<LldpConfig>,
    pub ethtool: Option<EthtoolConfig>,
    pub dispatch: Option<DispatchConfig>,
}

/// The mathematical form of `BaseInterface`: the list of set attributes is a
/// set.
#[verifier::ext_equal]
pub struct BaseInterfaceView {
    pub name: Text,
    pub touched: Set<Text>,
    pub description: Option<Text>,
    pub iface_type: InterfaceTypeView,
    pub state: InterfaceState,
    pub identifier: Option<InterfaceIdentifier>,
    pub profile_name: Option<Text>,
    pub mac_address: Option<Text>,
    pub permanent_mac_address: Option<Text>,
    pub mtu: Option<u64>,
    pub min_mtu: Option<u64>,
    pub max_mtu: Option<u64>,
    pub wait_ip: Option<WaitIp>,
    pub ipv4: Option<InterfaceIpView>,
    pub ipv6: Option<InterfaceIpView>,
    pub mptcp: Option<Option<Seq<MptcpAddressFlag>>>,
    pub controller: Option<Text>,
    pub controller_type: Option<InterfaceTypeView>,
    pub accept_all_mac_addresses: Option<bool>,
    pub ovsdb: Option<OvsDbIfaceConfigView>,
    pub ieee8021x: Option<Ieee8021XConfigView>,
    pub lldp: Option<LldpConfigView>,
    pub ethtool: Option<EthtoolConfig>,
    pub dispatch: Option<DispatchConfigView>,
}

impl DeepView for BaseInterface {
    type V = BaseInterfaceView;

    open spec fn deep_view(&self) -> BaseInterfaceView {
        BaseInterfaceView {
            name: self.name@,
            touched: self.prop_list.deep_view().to_set(),
            description: self.description.deep_view(),
            iface_type: self.iface_type@,
            state: self.state,
            identifier: self.identifier,
            profile_name: self.profile_name.deep_view(),
            mac_address: self.mac_address.deep_view(),
            permanent_mac_address: self.permanent_mac_address.deep_view(),
            mtu: self.mtu,
            min_mtu: self.min_mtu,
            max_mtu: self.max_mtu,
            wait_ip: self.wait_ip,
            ipv4: self.ipv4.deep_view(),
            ipv6: self.ipv6.deep_view(),
            mptcp: self.mptcp.deep_view(),
            controller: self.controller.deep_view(),
            controller_type: self.controller_type.deep_view(),
            accept_all_mac_addresses: self.accept_all_mac_addresses,
            ovsdb: self.ovsdb.deep_view(),
            ieee8021x: self.ieee8021x.deep_view(),
            lldp: self.lldp.deep_view(),
            ethtool: self.ethtool,
            dispatch: self.dispatch.deep_view(),
        }
    }
}

impl View for BaseInterface {
    type V = BaseInterfaceView;

    open spec fn view(&self) -> BaseInterfaceView {
        self.deep_view()
    }
}

/// The base of an interface of which nothing is known yet: no name, kind
/// `Unknown`, state `Up`, every other attribute absent, nothing set.
pub open spec fn empty_base() -> BaseInterfaceView {
    BaseInterfaceView {
        name: Seq::<char>::empty(),
        touched: Set::<Text>::empty(),
        description: None,
        iface_type: InterfaceTypeView::Unknown,
        state: InterfaceState::Up,
        identifier: None,
        profile_name: None,
        mac_address: None,
        permanent_mac_address: None,
        mtu: None,
        min_mtu: None,
        max_mtu: None,
        wait_ip: None,
        ipv4: None,
        ipv6: None,
        mptcp: None,
        controller: None,
        controller_type: None,
        accept_all_mac_addresses: None,
        ovsdb: None,
        ieee8021x: None,
        lldp: None,
        ethtool: None,
        dispatch: None,
    }
}

impl BaseInterface {
    /// The base of an interface of which nothing is known yet.
    pub fn new() -> (base: Self)
        ensures
            base@ == empty_base(),
            base.prop_list@.len() == 0,
    {
        let base = BaseInterface {
            name: String::new(),
            prop_list: Vec::new(),
            description: None,
            iface_type: InterfaceType::Unknown,
            state: InterfaceState::Up,
            identifier: None,
            profile_name: None,
            mac_address: None,
            permanent_mac_address: None,
            mtu: None,
            min_mtu: None,
            max_mtu: None,
            wait_ip: None,
            ipv4: None,
            ipv6: None,
            mptcp: None,
            controller: None,
            controller_type: None,
            accept_all_mac_addresses: None,
            ovsdb: None,
            ieee8021x: None,
            lldp: None,
            ethtool: None,
            dispatch: None,
        };
        assert(base.prop_list.deep_view() =~= Seq::<Text>::empty());
        assert(base@.touched =~= Set::<Text>::empty());
        base
    }
}

impl Clone for BaseInterface {
    fn clone(&self) -> (copy: Self)
        ensures
            copy@ == self@,
            copy.prop_list.deep_view() == self.prop_list.deep_view(),
    {
        BaseInterface {
            name: self.name.clone(),
            prop_list: clone_names(&self.prop_list),
            description: clone_opt_string(&self.description),
            iface_type: self.iface_type.clone(),
            state: self.state,
            identifier: self.identifier,
            profile_name: clone_opt_string(&self.profile_name),
            mac_address: clone_opt_string(&self.mac_address),
            permanent_mac_address: clone_opt_string(&self.permanent_mac_address),
            mtu: self.mtu,
            min_mtu: self.min_mtu,
            max_mtu: self.max_mtu,
            wait_ip: self.wait_ip,
            ipv4: self.ipv4.clone(),
            ipv6: self.ipv6.clone(),
            mptcp: self.mptcp.clone(),
            controller: clone_opt_string(&self.controller),
            controller_type: self.controller_type.clone(),
            accept_all_mac_addresses: self.accept_all_mac_addresses,
            ovsdb: self.ovsdb.clone(),
            ieee8021x: self.ieee8021x.clone(),
            lldp: self.lldp.clone(),
            ethtool: self.ethtool,
            dispatch: self.dispatch.clone(),
        }
    }
}

} // verus!
