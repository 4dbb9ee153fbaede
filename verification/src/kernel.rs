//! What the kernel-state query backend reports, and what it takes to apply,
//! as plain values.

use vstd::prelude::*;
use crate::text::Text;

verus! {

/// The address family of a route.
#[derive(Debug, Clone, Copy, PartialEq, Eq, Structural)]
pub enum AddressFamily {
    IPv4,
    IPv6,
    Other(u8),
    Unknown,
}

/// Who installed a route.
#[derive(Debug, Clone, Copy, PartialEq, Eq, Structural)]
pub enum RouteProtocol {
    Unspec,
    IcmpRedirect,
    Kernel,
    Boot,
    Static,
    Gated,
    Ra,
    Mrt,
    Zebra,
    Bird,
    DnRouted,
    Xorp,
    Ntk,
    Dhcp,
    Mrouted,
    KeepAlived,
    Babel,
    Bgp,
    Isis,
    Ospf,
    Rip,
    Eigrp,
    Unknown,
    Other(u8),
}

/// How far the destination of a route is.
#[derive(Debug, Clone, Copy, PartialEq, Eq, Structural)]
pub enum RouteScope {
    Universe,
    Site,
    Link,
    Host,
    NoWhere,
    Unknown,
    Other(u8),
}

/// The kind of a route as the kernel knows it.
#[derive(Debug, Clone, Copy, PartialEq, Eq, Structural)]
pub enum RouteType {
    Unspec,
    Unicast,
    Local,
    Broadcast,
    Anycast,
    Multicast,
    BlackHole,
    Unreachable,
    Prohibit,
    Throw,
    Nat,
    ExternalResolve,
    Unknown,
    Other(u8),
}

/// One next hop of a multipath route.
#[derive(Debug, PartialEq, Eq)]
pub struct MultipathRoute {
    pub via: String,
    pub iface: String,
    pub weight: u16,
}

/// The mathematical form of `MultipathRoute`.
pub struct MultipathRouteView {
    pub via: Text,
    pub iface: Text,
    pub weight: u16,
}

impl DeepView for MultipathRoute {
    type V = MultipathRouteView;

    open spec fn deep_view(&self) -> MultipathRouteView {
        MultipathRouteView { via: self.via@, iface: self.iface@, weight: self.weight }
    }
}

/// A route as the kernel reports it.
#[derive(Debug, PartialEq, Eq)]
pub struct Route {
    pub address_family: AddressFamily,
    pub table: u32,
    pub protocol: RouteProtocol,
    pub scope: RouteScope,
    pub route_type: RouteType,
    pub dst: Option<String>,
    pub oif: Option<String>,
    pub prefered_src: Option<String>,
    pub gateway: Option<String>,
    pub via: Option<String>,
    /// The bit field of locked metrics.
    pub lock: Option<u32>,
    pub cwnd: Option<u32>,
    pub metric: Option<u32>,
    pub multipath: Option<Vec<MultipathRoute>>,
}

/// A route in the form in which the kernel backend applies it.
#[derive(Debug, PartialEq, Eq)]
pub struct RouteConf {
    pub remove: bool,
    pub dst: String,
    pub oif: Option<String>,
    pub via: Option<String>,
    pub metric: Option<u32>,
    pub table: Option<u8>,
}

/// The mathematical form of `RouteConf`.
pub struct RouteConfView {
    pub remove: bool,
    pub dst: Text,
    pub oif: Option<Text>,
    pub via: Option<Text>,
    pub metric: Option<u32>,
    pub table: Option<u8>,
}

impl DeepView for RouteConf {
    type V = RouteConfView;

    open spec fn deep_view(&self) -> RouteConfView {
        RouteConfView {
            remove: self.remove,
            dst: self.dst@,
            oif: self.oif.deep_view(),
            via: self.via.deep_view(),
            metric: self.metric,
            table: self.table,
        }
    }
}

/// What the kernel reports of a VRF interface.
#[derive(Debug, PartialEq, Eq)]
pub struct VrfInfo {
    pub table_id: u32,
    pub subordinates: Vec<String>,
}

} // verus!
