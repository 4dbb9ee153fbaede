use nmstate::error::ErrorKind;
use nmstate::kernel::{
    AddressFamily, MultipathRoute, Route, RouteConf, RouteProtocol, RouteScope, RouteType,
};
use nmstate::route::{
    flat_multipath_route, gen_nispor_route_confs, get_routes, is_multipath, is_route_dropped,
    nmstate_to_nispor_route_conf,
    np_route_to_nmstate, np_routetype_to_nmstate, route_protocols, MergedRoutes, RouteEntry,
    RouteState,
};

fn kernel_route(family: AddressFamily) -> Route {
    Route {
        address_family: family,
        table: 254,
        protocol: RouteProtocol::Static,
        scope: RouteScope::Universe,
        route_type: RouteType::Unicast,
        dst: None,
        oif: None,
        prefered_src: None,
        gateway: None,
        via: None,
        lock: None,
        cwnd: None,
        metric: None,
        multipath: None,
    }
}

fn s(text: &str) -> Option<String> {
    Some(text.to_string())
}

fn hop(iface: &str, via: &str, weight: u16) -> MultipathRoute {
    MultipathRoute { via: via.to_string(), iface: iface.to_string(), weight }
}

#[test]
fn unicast_route_is_taken_over() {
    let mut r = kernel_route(AddressFamily::IPv4);
    r.dst = s("198.51.100.0/24");
    r.oif = s("eth1");
    r.via = s("192.0.2.1");
    r.gateway = s("192.0.2.254");
    r.prefered_src = s("192.0.2.7");
    r.metric = Some(150);
    r.table = 100;
    let e = np_route_to_nmstate(&r).unwrap();
    assert_eq!(
        e,
        RouteEntry {
            state: None,
            destination: s("198.51.100.0/24"),
            next_hop_iface: s("eth1"),
            next_hop_addr: s("192.0.2.1"),
            metric: Some(150),
            table_id: Some(100),
            weight: None,
            route_type: None,
            cwnd: None,
            source: s("192.0.2.7"),
        }
    );
}

#[test]
fn route_without_destination_gets_the_default_of_its_family() {
    let mut r = kernel_route(AddressFamily::IPv4);
    r.oif = s("eth1");
    assert_eq!(np_route_to_nmstate(&r).unwrap().destination, s("0.0.0.0/0"));
    r.address_family = AddressFamily::IPv6;
    assert_eq!(np_route_to_nmstate(&r).unwrap().destination, s("::/0"));
    r.route_type = RouteType::BlackHole;
    assert_eq!(np_routetype_to_nmstate(&r).unwrap().destination, s("::/0"));
}

#[test]
fn route_of_unknown_family_without_destination_is_dropped() {
    let mut r = kernel_route(AddressFamily::Unknown);
    r.oif = s("eth1");
    assert_eq!(np_route_to_nmstate(&r), None);
    r.address_family = AddressFamily::Other(7);
    assert_eq!(np_route_to_nmstate(&r), None);
    assert_eq!(np_routetype_to_nmstate(&r), None);
    assert!(is_route_dropped(&r));
    assert!(!is_route_dropped(&kernel_route(AddressFamily::IPv6)));

    let mut ok = kernel_route(AddressFamily::IPv4);
    ok.oif = s("eth2");
    let routes = get_routes(false, &vec![r, ok]);
    assert_eq!(routes.running.unwrap().len(), 1);
    assert_eq!(routes.config.unwrap().len(), 1);
}

#[test]
fn route_of_unknown_family_with_destination_has_no_next_hop_address() {
    let mut r = kernel_route(AddressFamily::Unknown);
    r.dst = s("198.51.100.0/24");
    r.oif = s("eth1");
    let e = np_route_to_nmstate(&r).unwrap();
    assert_eq!(e.destination, s("198.51.100.0/24"));
    assert_eq!(e.next_hop_addr, None);
}

#[test]
fn next_hop_address_is_via_then_gateway_then_the_empty_address() {
    let mut r = kernel_route(AddressFamily::IPv4);
    r.oif = s("eth1");
    assert_eq!(np_route_to_nmstate(&r).unwrap().next_hop_addr, s("0.0.0.0"));
    r.gateway = s("192.0.2.254");
    assert_eq!(np_route_to_nmstate(&r).unwrap().next_hop_addr, s("192.0.2.254"));
    r.via = s("192.0.2.1");
    assert_eq!(np_route_to_nmstate(&r).unwrap().next_hop_addr, s("192.0.2.1"));
    let mut r6 = kernel_route(AddressFamily::IPv6);
    r6.oif = s("eth1");
    assert_eq!(np_route_to_nmstate(&r6).unwrap().next_hop_addr, s("::"));
}

#[test]
fn congestion_window_needs_its_lock() {
    let mut r = kernel_route(AddressFamily::IPv4);
    r.oif = s("eth1");
    r.cwnd = Some(10);
    assert_eq!(np_route_to_nmstate(&r).unwrap().cwnd, None);
    r.lock = Some(0x7f);
    assert_eq!(np_route_to_nmstate(&r).unwrap().cwnd, None);
    r.lock = Some(0xff00);
    assert_eq!(np_route_to_nmstate(&r).unwrap().cwnd, None);
    r.lock = Some(0x80);
    assert_eq!(np_route_to_nmstate(&r).unwrap().cwnd, Some(10));
    r.lock = Some(0x1c1);
    assert_eq!(np_route_to_nmstate(&r).unwrap().cwnd, Some(10));
    r.route_type = RouteType::Prohibit;
    assert_eq!(np_routetype_to_nmstate(&r).unwrap().cwnd, Some(10));
    r.lock = Some(0);
    assert_eq!(np_routetype_to_nmstate(&r).unwrap().cwnd, None);
    r.lock = Some(0x80);
    r.cwnd = None;
    assert_eq!(np_routetype_to_nmstate(&r).unwrap().cwnd, None);
}

#[test]
fn typed_route_names_an_interface_for_ipv6_only() {
    let mut r = kernel_route(AddressFamily::IPv4);
    r.route_type = RouteType::Unreachable;
    r.dst = s("198.51.100.0/24");
    r.oif = s("lo");
    r.via = s("192.0.2.1");
    r.prefered_src = s("192.0.2.7");
    r.metric = Some(7);
    let e = np_routetype_to_nmstate(&r).unwrap();
    assert_eq!(
        e,
        RouteEntry {
            state: None,
            destination: s("198.51.100.0/24"),
            next_hop_iface: None,
            next_hop_addr: None,
            metric: Some(7),
            table_id: Some(254),
            weight: None,
            route_type: Some(nmstate::route::RouteType::Unreachable),
            cwnd: None,
            source: None,
        }
    );
    r.address_family = AddressFamily::IPv6;
    r.route_type = RouteType::BlackHole;
    let e = np_routetype_to_nmstate(&r).unwrap();
    assert_eq!(e.next_hop_iface, s("lo"));
    assert_eq!(e.route_type, Some(nmstate::route::RouteType::Blackhole));
    r.route_type = RouteType::Prohibit;
    assert_eq!(
        np_routetype_to_nmstate(&r).unwrap().route_type,
        Some(nmstate::route::RouteType::Prohibit)
    );
    r.route_type = RouteType::Throw;
    assert_eq!(np_routetype_to_nmstate(&r).unwrap().route_type, None);
}

#[test]
fn multipath_route_is_flattened_hop_by_hop() {
    let mut r = kernel_route(AddressFamily::IPv4);
    r.dst = s("10.0.0.0/24");
    r.table = 254;
    r.metric = Some(100);
    r.multipath = Some(vec![hop("eth0", "192.168.1.1", 1), hop("eth1", "192.168.2.1", 2)]);
    assert!(is_multipath(&r));
    let flat = flat_multipath_route(&r);
    assert_eq!(flat.len(), 2);
    for e in &flat {
        assert_eq!(e.destination, s("10.0.0.0/24"));
        assert_eq!(e.table_id, Some(254));
        assert_eq!(e.metric, Some(100));
    }
    assert_eq!(flat[0].next_hop_iface, s("eth0"));
    assert_eq!(flat[0].next_hop_addr, s("192.168.1.1"));
    assert_eq!(flat[0].weight, Some(1));
    assert_eq!(flat[1].next_hop_iface, s("eth1"));
    assert_eq!(flat[1].next_hop_addr, s("192.168.2.1"));
    assert_eq!(flat[1].weight, Some(2));
    assert_ne!(flat[0].next_hop_iface, flat[1].next_hop_iface);

    let mut hops: Vec<(String, String, u16)> = flat
        .iter()
        .map(|e| {
            (e.next_hop_iface.clone().unwrap(), e.next_hop_addr.clone().unwrap(), e.weight.unwrap())
        })
        .collect();
    hops.sort();
    assert_eq!(
        hops,
        vec![
            ("eth0".to_string(), "192.168.1.1".to_string(), 1),
            ("eth1".to_string(), "192.168.2.1".to_string(), 2)
        ]
    );
}

#[test]
fn multipath_route_keeps_weights_for_ipv4_only() {
    let mut r = kernel_route(AddressFamily::IPv6);
    r.dst = s("2001:db8::/64");
    r.multipath = Some(vec![hop("eth0", "2001:db8:1::1", 5)]);
    let flat = flat_multipath_route(&r);
    assert_eq!(flat.len(), 1);
    assert_eq!(flat[0].weight, None);
    assert_eq!(flat[0].next_hop_iface, s("eth0"));
}

#[test]
fn multipath_route_without_hops_or_destination() {
    let mut r = kernel_route(AddressFamily::IPv4);
    assert!(!is_multipath(&r));
    assert!(flat_multipath_route(&r).is_empty());
    r.multipath = Some(vec![]);
    assert!(!is_multipath(&r));
    assert!(flat_multipath_route(&r).is_empty());
    let mut u = kernel_route(AddressFamily::Unknown);
    u.multipath = Some(vec![hop("eth0", "192.0.2.1", 1)]);
    assert!(is_multipath(&u));
    assert!(flat_multipath_route(&u).is_empty());
}

fn with_protocol(protocol: RouteProtocol, iface: &str) -> Route {
    let mut r = kernel_route(AddressFamily::IPv4);
    r.protocol = protocol;
    r.oif = s(iface);
    r.dst = s("198.51.100.0/24");
    r
}

#[test]
fn running_config_only_shows_boot_and_static() {
    let routes = vec![
        with_protocol(RouteProtocol::Boot, "eth0"),
        with_protocol(RouteProtocol::Static, "eth1"),
        with_protocol(RouteProtocol::Dhcp, "eth2"),
    ];
    let got = get_routes(true, &routes);
    assert_eq!(got.running, None);
    let config = got.config.unwrap();
    assert_eq!(config.len(), 2);
    assert_eq!(config[0].next_hop_iface, s("eth0"));
    assert_eq!(config[1].next_hop_iface, s("eth1"));
}

#[test]
fn full_query_shows_learnt_routes_as_running_only() {
    let routes = vec![
        with_protocol(RouteProtocol::Dhcp, "eth2"),
        with_protocol(RouteProtocol::Boot, "eth0"),
        with_protocol(RouteProtocol::Ra, "eth3"),
        with_protocol(RouteProtocol::Kernel, "eth4"),
        with_protocol(RouteProtocol::Babel, "eth5"),
        with_protocol(RouteProtocol::Bgp, "eth6"),
        with_protocol(RouteProtocol::Mrouted, "eth7"),
        with_protocol(RouteProtocol::KeepAlived, "eth8"),
    ];
    let got = get_routes(false, &routes);
    let running: Vec<Option<String>> =
        got.running.unwrap().into_iter().map(|e| e.next_hop_iface).collect();
    assert_eq!(running, vec![s("eth2"), s("eth0"), s("eth3"), s("eth5"), s("eth7"), s("eth8")]);
    let config: Vec<Option<String>> =
        got.config.unwrap().into_iter().map(|e| e.next_hop_iface).collect();
    assert_eq!(config, vec![s("eth0")]);
}

#[test]
fn only_universe_and_link_scopes_are_shown() {
    let mut link = with_protocol(RouteProtocol::Static, "eth0");
    link.scope = RouteScope::Link;
    let mut host = with_protocol(RouteProtocol::Static, "eth1");
    host.scope = RouteScope::Host;
    let mut site = with_protocol(RouteProtocol::Static, "eth2");
    site.scope = RouteScope::Site;
    let universe = with_protocol(RouteProtocol::Static, "eth3");
    let got = get_routes(false, &vec![link, host, site, universe]);
    let config: Vec<Option<String>> =
        got.config.unwrap().into_iter().map(|e| e.next_hop_iface).collect();
    assert_eq!(config, vec![s("eth0"), s("eth3")]);
}

#[test]
fn route_without_interface_or_kind_is_not_shown() {
    let r = kernel_route(AddressFamily::IPv4);
    let mut typed = kernel_route(AddressFamily::IPv4);
    typed.route_type = RouteType::BlackHole;
    let mut multi = kernel_route(AddressFamily::IPv4);
    multi.route_type = RouteType::BlackHole;
    multi.multipath = Some(vec![hop("eth0", "192.0.2.1", 1), hop("eth1", "192.0.2.2", 1)]);
    let got = get_routes(false, &vec![r, typed, multi]).config.unwrap();
    assert_eq!(got.len(), 3);
    assert_eq!(got[0].route_type, Some(nmstate::route::RouteType::Blackhole));
    assert_eq!(got[1].route_type, None);
    assert_eq!(got[1].next_hop_iface, s("eth0"));
    assert_eq!(got[2].next_hop_iface, s("eth1"));
}

#[test]
fn queried_protocols() {
    assert_eq!(route_protocols(true), vec![RouteProtocol::Boot, RouteProtocol::Static]);
    assert_eq!(
        route_protocols(false),
        vec![
            RouteProtocol::Boot,
            RouteProtocol::Static,
            RouteProtocol::Ra,
            RouteProtocol::Dhcp,
            RouteProtocol::Mrouted,
            RouteProtocol::KeepAlived,
            RouteProtocol::Babel
        ]
    );
}

fn desired() -> RouteEntry {
    let mut e = RouteEntry::new();
    e.destination = s("198.51.100.0/24");
    e.next_hop_iface = s("eth1");
    e.next_hop_addr = s("192.0.2.1");
    e
}

#[test]
fn desired_route_is_brought_into_the_form_to_apply() {
    let mut e = desired();
    e.metric = Some(150);
    e.table_id = Some(255);
    e.weight = Some(0);
    e.route_type = Some(nmstate::route::RouteType::Unicast);
    assert_eq!(
        nmstate_to_nispor_route_conf(&e),
        Ok(RouteConf {
            remove: false,
            dst: "198.51.100.0/24".to_string(),
            oif: s("eth1"),
            via: s("192.0.2.1"),
            metric: Some(150),
            table: Some(255),
        })
    );
    let mut absent = RouteEntry::new();
    absent.state = Some(RouteState::Absent);
    assert!(absent.is_absent());
    assert_eq!(
        nmstate_to_nispor_route_conf(&absent),
        Ok(RouteConf {
            remove: true,
            dst: String::new(),
            oif: None,
            via: None,
            metric: None,
            table: None
        })
    );
}

#[test]
fn metric_that_does_not_fit_is_left_out() {
    let mut e = desired();
    e.metric = Some(-1);
    assert_eq!(nmstate_to_nispor_route_conf(&e).unwrap().metric, None);
    e.metric = Some(4294967296);
    assert_eq!(nmstate_to_nispor_route_conf(&e).unwrap().metric, None);
    e.metric = Some(4294967295);
    assert_eq!(nmstate_to_nispor_route_conf(&e).unwrap().metric, Some(4294967295));
    e.metric = Some(0);
    assert_eq!(nmstate_to_nispor_route_conf(&e).unwrap().metric, Some(0));
}

#[test]
fn table_id_above_255_is_refused() {
    let mut e = desired();
    e.table_id = Some(300);
    let err = nmstate_to_nispor_route_conf(&e).unwrap_err();
    assert_eq!(err.kind(), ErrorKind::NotImplementedError);
    assert_eq!(
        err.msg(),
        "nispor apply does not support route table ID bigger than 255 yet, got 300, ignoring"
    );
    e.table_id = Some(256);
    assert!(nmstate_to_nispor_route_conf(&e).is_err());
    e.table_id = Some(255);
    assert_eq!(nmstate_to_nispor_route_conf(&e).unwrap().table, Some(255));
    e.table_id = Some(0);
    assert_eq!(nmstate_to_nispor_route_conf(&e).unwrap().table, Some(0));
}

#[test]
fn weight_kind_and_congestion_window_are_refused() {
    let mut e = desired();
    e.weight = Some(1);
    let err = nmstate_to_nispor_route_conf(&e).unwrap_err();
    assert_eq!(err.kind(), ErrorKind::NotImplementedError);
    assert_eq!(err.msg(), "nispor apply does not support route weight yet");

    let mut e = desired();
    e.route_type = Some(nmstate::route::RouteType::Blackhole);
    let err = nmstate_to_nispor_route_conf(&e).unwrap_err();
    assert_eq!(err.kind(), ErrorKind::NotImplementedError);
    assert_eq!(err.msg(), "nispor apply does not support route type yet");

    let mut e = desired();
    e.cwnd = Some(10);
    let err = nmstate_to_nispor_route_conf(&e).unwrap_err();
    assert_eq!(err.kind(), ErrorKind::NotImplementedError);
    assert_eq!(err.msg(), "nispor apply does not support route congestion window yet");

    let mut e = desired();
    e.cwnd = Some(10);
    e.weight = Some(3);
    e.table_id = Some(1000);
    let err = nmstate_to_nispor_route_conf(&e).unwrap_err();
    assert_eq!(
        err.msg(),
        "nispor apply does not support route table ID bigger than 255 yet, got 1000, ignoring"
    );
}

#[test]
fn changed_routes_are_all_applied_or_none() {
    let ok = desired();
    let mut bad = desired();
    bad.table_id = Some(300);
    let mut worse = desired();
    worse.weight = Some(2);
    let confs = gen_nispor_route_confs(&MergedRoutes { changed_routes: vec![desired(), ok] });
    assert_eq!(confs.unwrap().len(), 2);
    let err = gen_nispor_route_confs(&MergedRoutes { changed_routes: vec![desired(), bad, worse] })
        .unwrap_err();
    assert_eq!(err.kind(), ErrorKind::NotImplementedError);
    assert_eq!(
        err.msg(),
        "nispor apply does not support route table ID bigger than 255 yet, got 300, ignoring"
    );
    assert_eq!(gen_nispor_route_confs(&MergedRoutes { changed_routes: vec![] }), Ok(vec![]));
}
