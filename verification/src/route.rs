//! Routes: what the kernel reports brought into the form of this library,
//! and desired routes brought into the form the kernel backend applies.

use vstd::prelude::*;
use vstd::string::StringExecFns;
use crate::error::{ErrorKind, NmstateError};
use crate::fold::seq_of;
use crate::kernel::{
    AddressFamily, MultipathRoute, MultipathRouteView, Route, RouteConf, RouteConfView,
    RouteProtocol, RouteScope,
};
use crate::text::{Text, clone_opt_string, decimal, u64_to_string};

verus! {

/// The destination of the default route of IPv4.
pub const IPV4_DEFAULT_GATEWAY: &'static str = "0.0.0.0/0";

/// The destination of the default route of IPv6.
pub const IPV6_DEFAULT_GATEWAY: &'static str = "::/0";

/// The next-hop address of an IPv4 route that names none.
pub const IPV4_EMPTY_NEXT_HOP_ADDRESS: &'static str = "0.0.0.0";

/// The next-hop address of an IPv6 route that names none.
pub const IPV6_EMPTY_NEXT_HOP_ADDRESS: &'static str = "::";

/// The bit of the lock bit field that stands for the congestion window.
pub const CWND_LOCK_MASK: u32 = 0x80;

/// The largest table id that the kernel backend applies.
pub const MAX_APPLY_TABLE_ID: u32 = 255;

/// Whether a route is to be removed.
#[derive(Debug, Clone, Copy, PartialEq, Eq, Structural)]
pub enum RouteState {
    Absent,
}

/// The kind of a route.
#[derive(Debug, Clone, Copy, PartialEq, Eq, Structural)]
pub enum RouteType {
    Blackhole,
    Unreachable,
    Prohibit,
    Unicast,
}

/// One route with one next hop.
#[derive(Debug, PartialEq, Eq)]
pub struct RouteEntry {
    pub state: Option<RouteState>,
    pub destination: Option<String>,
    pub next_hop_iface: Option<String>,
    pub next_hop_addr: Option<String>,
    pub metric: Option<i64>,
    pub table_id: Option<u32>,
    pub weight: Option<u16>,
    pub route_type: Option<RouteType>,
    /// The congestion window; set only where the kernel locks it.
    pub cwnd: Option<u32>,
    pub source: Option<String>,
}

/// The mathematical form of `RouteEntry`.
pub struct RouteEntryView {
    pub state: Option<RouteState>,
    pub destination: Option<Text>,
    pub next_hop_iface: Option<Text>,
    pub next_hop_addr: Option<Text>,
    pub metric: Option<i64>,
    pub table_id: Option<u32>,
    pub weight: Option<u16>,
    pub route_type: Option<RouteType>,
    pub cwnd: Option<u32>,
    pub source: Option<Text>,
}

impl DeepView for RouteEntry {
    type V = RouteEntryView;

    open spec fn deep_view(&self) -> RouteEntryView {
        RouteEntryView {
            state: self.state,
            destination: self.destination.deep_view(),
            next_hop_iface: self.next_hop_iface.deep_view(),
            next_hop_addr: self.next_hop_addr.deep_view(),
            metric: self.metric,
            table_id: self.table_id,
            weight: self.weight,
            route_type: self.route_type,
            cwnd: self.cwnd,
            source: self.source.deep_view(),
        }
    }
}

impl View for RouteEntry {
    type V = RouteEntryView;

    open spec fn view(&self) -> RouteEntryView {
        self.deep_view()
    }
}

impl RouteEntry {
    /// A route of which nothing is set.
    pub fn new() -> (r: Self)
        ensures
            r@ == (RouteEntryView {
                state: None,
                destination: None,
                next_hop_iface: None,
                next_hop_addr: None,
                metric: None,
                table_id: None,
                weight: None,
                route_type: None,
                cwnd: None,
                source: None,
            }),
    {
        RouteEntry {
            state: None,
            destination: None,
            next_hop_iface: None,
            next_hop_addr: None,
            metric: None,
            table_id: None,
            weight: None,
            route_type: None,
            cwnd: None,
            source: None,
        }
    }

    /// Whether the route is to be removed.
    pub fn is_absent(&self) -> (b: bool)
        ensures
            b == (self@.state is Some),
    {
        self.state.is_some()
    }
}

/// The routes of a host: those in effect, and those that count as configured.
#[derive(Debug, PartialEq, Eq)]
pub struct Routes {
    pub running: Option<Vec<RouteEntry>>,
    pub config: Option<Vec<RouteEntry>>,
}

/// The routes that a reconciliation changes.
#[derive(Debug, PartialEq, Eq)]
pub struct MergedRoutes {
    pub changed_routes: Vec<RouteEntry>,
}

/// Whether routes of this scope can be owned by this library.
pub open spec fn scope_supported(scope: RouteScope) -> bool {
    scope == RouteScope::Universe || scope == RouteScope::Link
}

/// Whether routes of this protocol count as configured by the user.
pub open spec fn protocol_static(protocol: RouteProtocol) -> bool {
    protocol == RouteProtocol::Boot || protocol == RouteProtocol::Static
}

/// Whether routes of this protocol are looked at at all.
pub open spec fn protocol_supported(protocol: RouteProtocol) -> bool {
    protocol_static(protocol) || protocol == RouteProtocol::Ra || protocol == RouteProtocol::Dhcp
        || protocol == RouteProtocol::Mrouted || protocol == RouteProtocol::KeepAlived || protocol
        == RouteProtocol::Babel
}

/// Whether a query asks for routes of this protocol.
pub open spec fn protocol_queried(running_config_only: bool, protocol: RouteProtocol) -> bool {
    if running_config_only {
        protocol_static(protocol)
    } else {
        protocol_supported(protocol)
    }
}

/// The protocols a query asks the kernel backend for, in the order of asking.
pub open spec fn queried_protocols(running_config_only: bool) -> Seq<RouteProtocol> {
    if running_config_only {
        seq![RouteProtocol::Boot, RouteProtocol::Static]
    } else {
        seq![
            RouteProtocol::Boot,
            RouteProtocol::Static,
            RouteProtocol::Ra,
            RouteProtocol::Dhcp,
            RouteProtocol::Mrouted,
            RouteProtocol::KeepAlived,
            RouteProtocol::Babel,
        ]
    }
}

/// The destination given to a route that names none.
pub open spec fn default_destination(family: AddressFamily) -> Option<Text> {
    match family {
        AddressFamily::IPv4 => Some(IPV4_DEFAULT_GATEWAY@),
        AddressFamily::IPv6 => Some(IPV6_DEFAULT_GATEWAY@),
        _ => None,
    }
}

/// The destination of a route: its own, or the default of its family.
pub open spec fn destination_of(r: Route) -> Option<Text> {
    match r.dst {
        Some(d) => Some(d@),
        None => default_destination(r.address_family),
    }
}

/// The next-hop address given to a route that names none.
pub open spec fn default_next_hop(family: AddressFamily) -> Option<Text> {
    match family {
        AddressFamily::IPv4 => Some(IPV4_EMPTY_NEXT_HOP_ADDRESS@),
        AddressFamily::IPv6 => Some(IPV6_EMPTY_NEXT_HOP_ADDRESS@),
        _ => None,
    }
}

/// The next-hop address of a route: `via`, else its gateway, else the default
/// of its family.
pub open spec fn next_hop_of(r: Route, via: Option<Text>) -> Option<Text> {
    match via {
        Some(v) => Some(v),
        None => match r.gateway {
            Some(g) => Some(g@),
            None => default_next_hop(r.address_family),
        },
    }
}

/// Whether the kernel locks the congestion window of a route.
pub open spec fn cwnd_locked(lock: Option<u32>) -> bool {
    match lock {
        Some(bits) => bits & CWND_LOCK_MASK != 0,
        None => false,
    }
}

/// The congestion window of a route: set only where the kernel locks it.
pub open spec fn cwnd_of(r: Route) -> Option<u32> {
    if cwnd_locked(r.lock) {
        r.cwnd
    } else {
        None
    }
}

/// The metric of a route.
pub open spec fn metric_of(r: Route) -> Option<i64> {
    match r.metric {
        Some(m) => Some(m as i64),
        None => None,
    }
}

/// The route of this library for a kernel route through the given interface
/// and address, with the given weight. None where the route names no
/// destination and its family gives none.
pub open spec fn unicast_entry(
    r: Route,
    oif: Option<Text>,
    via: Option<Text>,
    weight: Option<u16>,
) -> Option<RouteEntryView> {
    match destination_of(r) {
        None => None,
        Some(d) => Some(
            RouteEntryView {
                state: None,
                destination: Some(d),
                next_hop_iface: oif,
                next_hop_addr: next_hop_of(r, via),
                metric: metric_of(r),
                table_id: Some(r.table),
                weight,
                route_type: None,
                cwnd: cwnd_of(r),
                source: r.prefered_src.deep_view(),
            },
        ),
    }
}

/// The kind of a kernel route that drops or refuses traffic.
pub open spec fn special_type(t: crate::kernel::RouteType) -> Option<RouteType> {
    match t {
        crate::kernel::RouteType::BlackHole => Some(RouteType::Blackhole),
        crate::kernel::RouteType::Unreachable => Some(RouteType::Unreachable),
        crate::kernel::RouteType::Prohibit => Some(RouteType::Prohibit),
        _ => None,
    }
}

/// The route of this library for a kernel route that drops or refuses
/// traffic. It names an interface only for IPv6, and no next-hop address.
pub open spec fn typed_entry(r: Route) -> Option<RouteEntryView> {
    match destination_of(r) {
        None => None,
        Some(d) => Some(
            RouteEntryView {
                state: None,
                destination: Some(d),
                next_hop_iface: if r.address_family == AddressFamily::IPv6 {
                    r.oif.deep_view()
                } else {
                    None
                },
                next_hop_addr: None,
                metric: metric_of(r),
                table_id: Some(r.table),
                weight: None,
                route_type: special_type(r.route_type),
                cwnd: cwnd_of(r),
                source: None,
            },
        ),
    }
}

/// Whether a kernel route has next hops of its own.
pub open spec fn has_multipath(r: Route) -> bool {
    r.multipath is Some && r.multipath.unwrap()@.len() > 0
}

/// The weight that a flat route takes from its hop: kept for IPv4 only.
pub open spec fn hop_weight(r: Route, hop: MultipathRouteView) -> Option<u16> {
    if r.address_family == AddressFamily::IPv4 {
        Some(hop.weight)
    } else {
        None
    }
}

/// The flat route for one hop of a multipath route.
pub open spec fn hop_entry(r: Route, hop: MultipathRouteView) -> Option<RouteEntryView> {
    unicast_entry(r, Some(hop.iface), Some(hop.via), hop_weight(r, hop))
}

/// The flat routes of a multipath route: one for each hop, in their order;
/// none where the route names no destination and its family gives none.
pub open spec fn flat_multipath(r: Route) -> Seq<RouteEntryView> {
    match r.multipath {
        None => Seq::empty(),
        Some(hops) => if destination_of(r) is None {
            Seq::empty()
        } else {
            Seq::new(hops@.len(), |i: int| hop_entry(r, hops@[i].deep_view()).unwrap())
        },
    }
}

/// The routes of this library for one kernel route: its flat routes where it
/// has next hops of its own; else one that drops or refuses traffic where its
/// kind says so; else one through its interface where it names one; else
/// none.
pub open spec fn entries_of(r: Route) -> Seq<RouteEntryView> {
    if has_multipath(r) {
        flat_multipath(r)
    } else if special_type(r.route_type) is Some {
        seq_of(typed_entry(r))
    } else if r.oif is Some {
        seq_of(unicast_entry(r, r.oif.deep_view(), r.via.deep_view(), None))
    } else {
        Seq::empty()
    }
}

/// Whether a query shows a kernel route among the routes in effect.
pub open spec fn in_running(running_config_only: bool, r: Route) -> bool {
    protocol_queried(running_config_only, r.protocol) && scope_supported(r.scope)
}

/// Whether a query shows a kernel route among the configured routes.
pub open spec fn in_config(running_config_only: bool, r: Route) -> bool {
    in_running(running_config_only, r) && protocol_static(r.protocol)
}

/// Whether a query shows a kernel route: among the configured routes where
/// `config` is set, else among the routes in effect.
pub open spec fn shown(running_config_only: bool, config: bool, r: Route) -> bool {
    if config {
        in_config(running_config_only, r)
    } else {
        in_running(running_config_only, r)
    }
}

/// The routes of this library for the kernel routes that a query shows, in
/// the order of the kernel routes.
pub open spec fn collect(routes: Seq<Route>, running_config_only: bool, config: bool) -> Seq<
    RouteEntryView,
>
    decreases routes.len(),
{
    if routes.len() == 0 {
        Seq::empty()
    } else {
        collect(routes.drop_last(), running_config_only, config) + (if shown(
            running_config_only,
            config,
            routes.last(),
        ) {
            entries_of(routes.last())
        } else {
            Seq::empty()
        })
    }
}

/// The protocols to ask the kernel backend for, in the order of asking.
pub fn route_protocols(running_config_only: bool) -> (protocols: Vec<RouteProtocol>)
    ensures
        protocols@ == queried_protocols(running_config_only),
        forall|p: RouteProtocol|
            protocols@.contains(p) <==> protocol_queried(running_config_only, p),
{
    let mut protocols: Vec<RouteProtocol> = Vec::new();
    protocols.push(RouteProtocol::Boot);
    protocols.push(RouteProtocol::Static);
    if !running_config_only {
        protocols.push(RouteProtocol::Ra);
        protocols.push(RouteProtocol::Dhcp);
        protocols.push(RouteProtocol::Mrouted);
        protocols.push(RouteProtocol::KeepAlived);
        protocols.push(RouteProtocol::Babel);
    }
    proof {
        assert(protocols@ =~= queried_protocols(running_config_only));
        assert forall|p: RouteProtocol|
            protocols@.contains(p) <==> protocol_queried(running_config_only, p) by {
            if protocol_queried(running_config_only, p) {
                if p == RouteProtocol::Boot {
                    assert(protocols@[0] == p);
                } else if p == RouteProtocol::Static {
                    assert(protocols@[1] == p);
                } else if p == RouteProtocol::Ra {
                    assert(protocols@[2] == p);
                } else if p == RouteProtocol::Dhcp {
                    assert(protocols@[3] == p);
                } else if p == RouteProtocol::Mrouted {
                    assert(protocols@[4] == p);
                } else if p == RouteProtocol::KeepAlived {
                    assert(protocols@[5] == p);
                } else {
                    assert(protocols@[6] == p);
                }
            }
        }
    }
    protocols
}

fn is_scope_supported(scope: RouteScope) -> (b: bool)
    ensures
        b == scope_supported(scope),
{
    scope == RouteScope::Universe || scope == RouteScope::Link
}

fn is_protocol_static(protocol: RouteProtocol) -> (b: bool)
    ensures
        b == protocol_static(protocol),
{
    protocol == RouteProtocol::Boot || protocol == RouteProtocol::Static
}

fn is_protocol_queried(running_config_only: bool, protocol: RouteProtocol) -> (b: bool)
    ensures
        b == protocol_queried(running_config_only, protocol),
{
    if is_protocol_static(protocol) {
        true
    } else if running_config_only {
        false
    } else {
        protocol == RouteProtocol::Ra || protocol == RouteProtocol::Dhcp || protocol
            == RouteProtocol::Mrouted || protocol == RouteProtocol::KeepAlived || protocol
            == RouteProtocol::Babel
    }
}

fn destination(np_route: &Route) -> (d: Option<String>)
    ensures
        d.deep_view() == destination_of(*np_route),
{
    match &np_route.dst {
        Some(dst) => Some(dst.clone()),
        None => match np_route.address_family {
            AddressFamily::IPv4 => Some(IPV4_DEFAULT_GATEWAY.to_owned()),
            AddressFamily::IPv6 => Some(IPV6_DEFAULT_GATEWAY.to_owned()),
            _ => None,
        },
    }
}

fn locked_cwnd(np_route: &Route) -> (c: Option<u32>)
    ensures
        c == cwnd_of(*np_route),
{
    let locked = match np_route.lock {
        Some(bits) => bits & CWND_LOCK_MASK != 0,
        None => false,
    };
    if locked {
        np_route.cwnd
    } else {
        None
    }
}

fn metric(np_route: &Route) -> (m: Option<i64>)
    ensures
        m == metric_of(*np_route),
{
    match np_route.metric {
        Some(m) => Some(m as i64),
        None => None,
    }
}

fn route_through(
    np_route: &Route,
    oif: Option<String>,
    via: Option<String>,
    weight: Option<u16>,
) -> (entry: Option<RouteEntry>)
    ensures
        entry.deep_view() == unicast_entry(*np_route, oif.deep_view(), via.deep_view(), weight),
{
    let destination = match destination(np_route) {
        Some(d) => d,
        None => {
            return None;
        },
    };
    let next_hop_addr = match via {
        Some(v) => Some(v),
        None => match &np_route.gateway {
            Some(g) => Some(g.clone()),
            None => match np_route.address_family {
                AddressFamily::IPv4 => Some(IPV4_EMPTY_NEXT_HOP_ADDRESS.to_owned()),
                AddressFamily::IPv6 => Some(IPV6_EMPTY_NEXT_HOP_ADDRESS.to_owned()),
                _ => None,
            },
        },
    };
    Some(
        RouteEntry {
            state: None,
            destination: Some(destination),
            next_hop_iface: oif,
            next_hop_addr,
            metric: metric(np_route),
            table_id: Some(np_route.table),
            weight,
            route_type: None,
            cwnd: locked_cwnd(np_route),
            source: clone_opt_string(&np_route.prefered_src),
        },
    )
}

/// The route of this library for a kernel route that drops or refuses
/// traffic. A route without destination takes the default route of its
/// family; where the family gives none, there is no route. The congestion
/// window is kept only where the kernel locks it.
pub fn np_routetype_to_nmstate(np_route: &Route) -> (entry: Option<RouteEntry>)
    ensures
        entry.deep_view() == typed_entry(*np_route),
{
    let destination = match destination(np_route) {
        Some(d) => d,
        None => {
            return None;
        },
    };
    let next_hop_iface = if np_route.address_family == AddressFamily::IPv6 {
        clone_opt_string(&np_route.oif)
    } else {
        None
    };
    let route_type = match np_route.route_type {
        crate::kernel::RouteType::BlackHole => Some(RouteType::Blackhole),
        crate::kernel::RouteType::Unreachable => Some(RouteType::Unreachable),
        crate::kernel::RouteType::Prohibit => Some(RouteType::Prohibit),
        _ => None,
    };
    Some(
        RouteEntry {
            state: None,
            destination: Some(destination),
            next_hop_iface,
            next_hop_addr: None,
            metric: metric(np_route),
            table_id: Some(np_route.table),
            weight: None,
            route_type,
            cwnd: locked_cwnd(np_route),
            source: None,
        },
    )
}

/// The route of this library for a kernel route with one next hop. A route
/// without destination takes the default route of its family; where the
/// family gives none, there is no route. A route without next-hop address
/// takes its gateway, else the empty address of its family. The congestion
/// window is kept only where the kernel locks it.
pub fn np_route_to_nmstate(np_route: &Route) -> (entry: Option<RouteEntry>)
    ensures
        entry.deep_view() == unicast_entry(
            *np_route,
            np_route.oif.deep_view(),
            np_route.via.deep_view(),
            None,
        ),
{
    route_through(np_route, clone_opt_string(&np_route.oif), clone_opt_string(&np_route.via), None)
}

/// Whether a kernel route is left out for want of a destination: it names
/// none, and its address family gives none.
pub fn is_route_dropped(np_route: &Route) -> (dropped: bool)
    ensures
        dropped == (destination_of(*np_route) is None),
{
    match &np_route.dst {
        Some(_) => false,
        None => match np_route.address_family {
            AddressFamily::IPv4 => false,
            AddressFamily::IPv6 => false,
            _ => true,
        },
    }
}

/// Whether a kernel route has next hops of its own.
pub fn is_multipath(np_route: &Route) -> (b: bool)
    ensures
        b == has_multipath(*np_route),
{
    match &np_route.multipath {
        Some(hops) => hops.len() > 0,
        None => false,
    }
}

/// The flat routes of a multipath route: one for each hop, in their order,
/// each with the interface and address of its hop and, for IPv4, its weight,
/// and with everything else as the route has it.
pub fn flat_multipath_route(np_route: &Route) -> (flat: Vec<RouteEntry>)
    ensures
        flat.deep_view() == flat_multipath(*np_route),
{
    let mut ret: Vec<RouteEntry> = Vec::new();
    if let Some(hops) = &np_route.multipath {
        let mut i: usize = 0;
        while i < hops.len()
            invariant
                i <= hops.len(),
                np_route.multipath == Some(*hops),
                ret.deep_view() =~= (if destination_of(*np_route) is None {
                    Seq::empty()
                } else {
                    Seq::new(
                        i as nat,
                        |k: int| hop_entry(*np_route, hops@[k].deep_view()).unwrap(),
                    )
                }),
            decreases hops.len() - i,
        {
            let hop: &MultipathRoute = &hops[i];
            let weight = if np_route.address_family == AddressFamily::IPv4 {
                Some(hop.weight)
            } else {
                None
            };
            let entry = route_through(
                np_route,
                Some(hop.iface.clone()),
                Some(hop.via.clone()),
                weight,
            );
            let ghost before = ret.deep_view();
            if let Some(route) = entry {
                ret.push(route);
                assert(ret.deep_view() =~= before.push(
                    hop_entry(*np_route, hops@[i as int].deep_view()).unwrap(),
                ));
            }
            i += 1;
        }
    }
    assert(ret.deep_view() =~= flat_multipath(*np_route));
    ret
}

fn route_entries(np_route: &Route) -> (entries: Vec<RouteEntry>)
    ensures
        entries.deep_view() == entries_of(*np_route),
{
    if is_multipath(np_route) {
        flat_multipath_route(np_route)
    } else {
        let entry = match np_route.route_type {
            crate::kernel::RouteType::BlackHole | crate::kernel::RouteType::Unreachable
            | crate::kernel::RouteType::Prohibit => np_routetype_to_nmstate(np_route),
            _ => if np_route.oif.is_some() {
                np_route_to_nmstate(np_route)
            } else {
                None
            },
        };
        let mut entries: Vec<RouteEntry> = Vec::new();
        if let Some(e) = entry {
            entries.push(e);
        }
        assert(entries.deep_view() =~= entries_of(*np_route));
        entries
    }
}

fn collect_routes(np_routes: &Vec<Route>, running_config_only: bool, config: bool) -> (out: Vec<
    RouteEntry,
>)
    ensures
        out.deep_view() == collect(np_routes@, running_config_only, config),
{
    let mut out: Vec<RouteEntry> = Vec::new();
    let mut i: usize = 0;
    assert(out.deep_view() =~= collect(np_routes@.take(0), running_config_only, config));
    while i < np_routes.len()
        invariant
            i <= np_routes.len(),
            out.deep_view() == collect(np_routes@.take(i as int), running_config_only, config),
        decreases np_routes.len() - i,
    {
        let np_route = &np_routes[i];
        proof {
            assert(np_routes@.take(i as int + 1).drop_last() =~= np_routes@.take(i as int));
            assert(np_routes@.take(i as int + 1).last() == *np_route);
        }
        let wanted = is_protocol_queried(running_config_only, np_route.protocol)
            && is_scope_supported(np_route.scope) && (!config || is_protocol_static(
            np_route.protocol,
        ));
        if wanted {
            let mut entries = route_entries(np_route);
            let ghost before = out.deep_view();
            let ghost added = entries.deep_view();
            out.append(&mut entries);
            assert(out.deep_view() =~= before + added);
        } else {
            assert(out.deep_view() =~= out.deep_view() + Seq::<RouteEntryView>::empty());
        }
        i += 1;
    }
    assert(np_routes@.take(np_routes.len() as int) =~= np_routes@);
    out
}

/// The routes of a host, from what the kernel backend reported. Only routes
/// of the queried protocols and of scope universe or link are looked at. The
/// configured routes are those of protocol boot or static. The routes in
/// effect are all that are looked at; a query for the running configuration
/// only does not show them.
pub fn get_routes(running_config_only: bool, np_routes: &Vec<Route>) -> (routes: Routes)
    ensures
        routes.config.deep_view() == Some(collect(np_routes@, running_config_only, true)),
        routes.running.deep_view() == (if running_config_only {
            None
        } else {
            Some(collect(np_routes@, running_config_only, false))
        }),
{
    let running = if running_config_only {
        None
    } else {
        Some(collect_routes(np_routes, running_config_only, false))
    };
    let config = collect_routes(np_routes, running_config_only, true);
    Routes { running, config: Some(config) }
}

/// Why a desired route with a weight cannot be applied.
pub const MSG_ROUTE_WEIGHT: &'static str = "nispor apply does not support route weight yet";

/// Why a desired route with a kind cannot be applied.
pub const MSG_ROUTE_TYPE: &'static str = "nispor apply does not support route type yet";

/// Why a desired route with a congestion window cannot be applied.
pub const MSG_ROUTE_CWND: &'static str =
    "nispor apply does not support route congestion window yet";

/// The start of the reason why a table id is too large to be applied.
pub const MSG_ROUTE_TABLE_HEAD: &'static str =
    "nispor apply does not support route table ID bigger than 255 yet, got ";

/// The end of the reason why a table id is too large to be applied.
pub const MSG_ROUTE_TABLE_TAIL: &'static str = ", ignoring";

/// Why the kernel backend cannot apply a desired route: the first of a table
/// id above 255, a weight other than zero, a kind other than unicast, and a
/// congestion window. None where it can.
pub open spec fn route_conf_refusal(e: RouteEntryView) -> Option<Text> {
    if e.table_id is Some && e.table_id.unwrap() > MAX_APPLY_TABLE_ID {
        Some(
            MSG_ROUTE_TABLE_HEAD@ + decimal(e.table_id.unwrap() as nat) + MSG_ROUTE_TABLE_TAIL@,
        )
    } else if e.weight is Some && e.weight.unwrap() != 0 {
        Some(MSG_ROUTE_WEIGHT@)
    } else if e.route_type is Some && e.route_type.unwrap() != RouteType::Unicast {
        Some(MSG_ROUTE_TYPE@)
    } else if e.cwnd is Some {
        Some(MSG_ROUTE_CWND@)
    } else {
        None
    }
}

/// A desired route in the form in which the kernel backend applies it. A
/// route without destination has the empty destination; a metric that does
/// not fit is left out.
pub open spec fn route_conf(e: RouteEntryView) -> RouteConfView {
    RouteConfView {
        remove: e.state is Some,
        dst: match e.destination {
            Some(d) => d,
            None => Seq::empty(),
        },
        oif: e.next_hop_iface,
        via: e.next_hop_addr,
        metric: match e.metric {
            Some(m) => if 0 <= m <= u32::MAX {
                Some(m as u32)
            } else {
                None
            },
            None => None,
        },
        table: match e.table_id {
            Some(t) => Some(t as u8),
            None => None,
        },
    }
}

fn not_implemented(msg: String) -> (e: NmstateError)
    ensures
        e.kind == ErrorKind::NotImplementedError,
        e.msg@ == msg@,
{
    NmstateError::new(ErrorKind::NotImplementedError, msg)
}

/// Brings a desired route into the form in which the kernel backend applies
/// it. A route that the backend cannot express is refused, never changed to
/// fit: a table id above 255, a weight other than zero, a kind other than
/// unicast, a congestion window.
pub fn nmstate_to_nispor_route_conf(nmstate_rt: &RouteEntry) -> (conf: Result<
    RouteConf,
    NmstateError,
>)
    ensures
        match conf {
            Ok(c) => route_conf_refusal(nmstate_rt@) is None && c.deep_view() == route_conf(
                nmstate_rt@,
            ),
            Err(e) => e.kind == ErrorKind::NotImplementedError && route_conf_refusal(nmstate_rt@)
                == Some(e.msg@),
        },
{
    let dst = match &nmstate_rt.destination {
        Some(d) => d.clone(),
        None => String::new(),
    };
    let metric = match nmstate_rt.metric {
        Some(m) => if 0 <= m && m <= 0xffff_ffff {
            Some(m as u32)
        } else {
            None
        },
        None => None,
    };
    let mut table: Option<u8> = None;
    if let Some(table_id) = nmstate_rt.table_id {
        if table_id > MAX_APPLY_TABLE_ID {
            let mut msg = MSG_ROUTE_TABLE_HEAD.to_owned();
            let digits = u64_to_string(table_id as u64);
            msg.append(digits.as_str());
            msg.append(MSG_ROUTE_TABLE_TAIL);
            return Err(not_implemented(msg));
        } else {
            table = Some(table_id as u8);
        }
    }
    if let Some(weight) = nmstate_rt.weight {
        if weight != 0 {
            return Err(not_implemented(MSG_ROUTE_WEIGHT.to_owned()));
        }
    }
    if let Some(route_type) = nmstate_rt.route_type {
        if route_type != RouteType::Unicast {
            return Err(not_implemented(MSG_ROUTE_TYPE.to_owned()));
        }
    }
    if nmstate_rt.cwnd.is_some() {
        return Err(not_implemented(MSG_ROUTE_CWND.to_owned()));
    }
    Ok(
        RouteConf {
            remove: nmstate_rt.is_absent(),
            dst,
            oif: clone_opt_string(&nmstate_rt.next_hop_iface),
            via: clone_opt_string(&nmstate_rt.next_hop_addr),
            metric,
            table,
        },
    )
}

/// The changed routes in the form in which the kernel backend applies them,
/// in their order. The first route that the backend cannot express is
/// reported and nothing is returned: a plan is never partly valid.
pub fn gen_nispor_route_confs(merged_routes: &MergedRoutes) -> (confs: Result<
    Vec<RouteConf>,
    NmstateError,
>)
    ensures
        match confs {
            Ok(v) => {
                &&& v.deep_view().len() == merged_routes.changed_routes@.len()
                &&& forall|i: int|
                    0 <= i < v.deep_view().len() ==> route_conf_refusal(
                        #[trigger] merged_routes.changed_routes@[i]@,
                    ) is None && v.deep_view()[i] == route_conf(merged_routes.changed_routes@[i]@)
            },
            Err(e) => exists|i: int|
                {
                    &&& 0 <= i < merged_routes.changed_routes@.len()
                    &&& e.kind == ErrorKind::NotImplementedError
                    &&& route_conf_refusal(#[trigger] merged_routes.changed_routes@[i]@) == Some(
                        e.msg@,
                    )
                    &&& forall|j: int|
                        0 <= j < i ==> route_conf_refusal(
                            #[trigger] merged_routes.changed_routes@[j]@,
                        ) is None
                },
        },
{
    let routes = &merged_routes.changed_routes;
    let mut ret: Vec<RouteConf> = Vec::new();
    let mut i: usize = 0;
    while i < routes.len()
        invariant
            i <= routes.len(),
            routes == &merged_routes.changed_routes,
            ret.deep_view().len() == i,
            forall|k: int|
                0 <= k < i ==> route_conf_refusal(#[trigger] routes@[k]@) is None
                    && ret.deep_view()[k] == route_conf(routes@[k]@),
        decreases routes.len() - i,
    {
        match nmstate_to_nispor_route_conf(&routes[i]) {
            Ok(conf) => {
                let ghost before = ret.deep_view();
                ret.push(conf);
                assert(ret.deep_view() =~= before.push(conf.deep_view()));
            },
            Err(e) => {
                assert(route_conf_refusal(routes@[i as int]@) == Some(e.msg@));
                return Err(e);
            },
        }
        i += 1;
    }
    Ok(ret)
}

/// A route without destination whose family is IPv4 or IPv6 is shown with
/// the default route of its family; one of any other family is not shown at
/// all, whatever else it holds.
pub proof fn lemma_default_destination(r: Route)
    requires
        r.dst is None,
    ensures
        r.address_family == AddressFamily::IPv4 ==> forall|i: int|
            0 <= i < entries_of(r).len() ==> (#[trigger] entries_of(r)[i]).destination == Some(
                IPV4_DEFAULT_GATEWAY@,
            ),
        r.address_family == AddressFamily::IPv6 ==> forall|i: int|
            0 <= i < entries_of(r).len() ==> (#[trigger] entries_of(r)[i]).destination == Some(
                IPV6_DEFAULT_GATEWAY@,
            ),
        r.address_family != AddressFamily::IPv4 && r.address_family != AddressFamily::IPv6
            ==> entries_of(r).len() == 0,
{
}

/// The congestion window of a kernel route is shown exactly where the route
/// has one and bit 7 of its lock bit field is set.
pub proof fn lemma_cwnd_needs_lock(r: Route)
    ensures
        forall|i: int|
            0 <= i < entries_of(r).len() ==> (#[trigger] entries_of(r)[i]).cwnd == (if r.lock
                is Some && r.lock.unwrap() & 0x80 != 0 {
                r.cwnd
            } else {
                None
            }),
{
}

/// The interface, the address and the weight that a flat route has from its
/// hop.
pub open spec fn hop_of(e: RouteEntryView) -> (Option<Text>, Option<Text>, Option<u16>) {
    (e.next_hop_iface, e.next_hop_addr, e.weight)
}

/// Flattening a multipath route that has a destination, or a family that
/// gives one, yields one route for each hop, in the order of the hops. Each
/// has the destination, table and metric of the multipath route, and the
/// interface and address of its hop: so the hops can be read back from the
/// flat routes, with their weights for IPv4, and flat routes of hops on
/// different interfaces name different interfaces.
pub proof fn lemma_flat_multipath_round_trip(r: Route)
    requires
        r.multipath is Some,
        destination_of(r) is Some,
    ensures
        flat_multipath(r).len() == r.multipath.unwrap()@.len(),
        forall|i: int|
            0 <= i < flat_multipath(r).len() ==> {
                let e = #[trigger] flat_multipath(r)[i];
                let hop = r.multipath.unwrap()@[i].deep_view();
                &&& e.destination == destination_of(r)
                &&& e.table_id == Some(r.table)
                &&& e.metric == metric_of(r)
                &&& hop_of(e) == (Some(hop.iface), Some(hop.via), hop_weight(r, hop))
            },
        r.address_family == AddressFamily::IPv4 ==> flat_multipath(r).map_values(
            |e: RouteEntryView| hop_of(e),
        ) == r.multipath.unwrap().deep_view().map_values(
            |h: MultipathRouteView| (Some(h.iface), Some(h.via), Some(h.weight)),
        ),
        forall|i: int, j: int|
            0 <= i < flat_multipath(r).len() && 0 <= j < flat_multipath(r).len()
                && r.multipath.unwrap()@[i].iface@ != r.multipath.unwrap()@[j].iface@
                ==> (#[trigger] flat_multipath(r)[i]).next_hop_iface != (
            #[trigger] flat_multipath(r)[j]).next_hop_iface,
{
    if r.address_family == AddressFamily::IPv4 {
        assert(flat_multipath(r).map_values(|e: RouteEntryView| hop_of(e))
            =~= r.multipath.unwrap().deep_view().map_values(
            |h: MultipathRouteView| (Some(h.iface), Some(h.via), Some(h.weight)),
        ));
    }
}

/// A query shows no route of a protocol that it did not ask for, and counts
/// as configured only routes of protocol boot or static: leaving the other
/// kernel routes out beforehand changes nothing.
pub proof fn lemma_collect_filters(routes: Seq<Route>, running_config_only: bool, config: bool)
    ensures
        collect(routes, running_config_only, config) == collect(
            routes.filter(|r: Route| shown(running_config_only, config, r)),
            running_config_only,
            config,
        ),
    decreases routes.len(),
{
    let keep = |r: Route| shown(running_config_only, config, r);
    reveal(Seq::filter);
    if routes.len() == 0 {
        assert(routes.filter(keep) =~= routes);
    } else {
        lemma_collect_filters(routes.drop_last(), running_config_only, config);
        let init = routes.drop_last();
        if keep(routes.last()) {
            let f = routes.filter(keep);
            assert(f =~= init.filter(keep).push(routes.last()));
            assert(f.drop_last() =~= init.filter(keep));
            assert(f.last() == routes.last());
        } else {
            assert(routes.filter(keep) =~= init.filter(keep));
            assert(collect(routes, running_config_only, config) =~= collect(
                init,
                running_config_only,
                config,
            ));
        }
    }
}

} // verus!
