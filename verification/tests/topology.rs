use mesh_topology::metrics::{
    hop_latency_us, mean_loss_rate, min_latency_us, nat_classification, node_latency_us,
    total_loss_rate, LossRollup, NatType,
};
use mesh_topology::model::{
    Ipv4Addr, Ipv4Inet, LossRate, MyNodeInfo, PeerConnInfo, PeerConnStats, PeerInfo,
    PeerRoutePair, Route, Snapshot, StunInfo, TunnelInfo,
};
use mesh_topology::pairing::{find_peer_index, infer_local_peer_id, local_pair_for, pair};
use mesh_topology::path::{
    collect_hops, find_pair_index, find_route_index, hop_for, local_hop_for, reconstruct_path,
    NodeHopStats,
};
use mesh_topology::status::{all_ips, describe_node, network_status};
use mesh_topology::text::{cidr_text, ipv4_text, push_decimal, push_signed_decimal};
use std::collections::HashSet;

fn ip(a: u32, b: u32, c: u32, d: u32) -> u32 {
    (a << 24) | (b << 16) | (c << 8) | d
}

fn inet(addr: u32, len: u32) -> Option<Ipv4Inet> {
    Some(Ipv4Inet { address: Some(Ipv4Addr { addr }), network_length: len })
}

fn route(peer_id: u32, addr: Option<u32>, next_hop: u32, latency: i32, hostname: &str) -> Route {
    Route {
        peer_id,
        ipv4_addr: addr.and_then(|a| inet(a, 24)),
        next_hop_peer_id: next_hop,
        cost: 1,
        path_latency: latency,
        proxy_cidrs: vec![],
        hostname: hostname.to_string(),
        stun_info: None,
        inst_id: format!("inst-{}", peer_id),
        version: "2.2.4".to_string(),
        feature_flag: None,
        next_hop_peer_id_latency_first: None,
        cost_latency_first: None,
        path_latency_latency_first: None,
    }
}

fn conn(is_client: bool, latency_us: Option<u64>, loss: f32) -> PeerConnInfo {
    PeerConnInfo {
        conn_id: "c".to_string(),
        my_peer_id: 1,
        peer_id: 2,
        features: vec![],
        tunnel: Some(TunnelInfo {
            tunnel_type: "udp".to_string(),
            local_addr: None,
            remote_addr: None,
        }),
        stats: latency_us.map(|l| PeerConnStats {
            rx_bytes: 10,
            tx_bytes: 20,
            rx_packets: 1,
            tx_packets: 2,
            latency_us: l,
        }),
        loss_rate: LossRate { bits: loss.to_bits() },
        is_client,
        network_name: "net".to_string(),
    }
}

fn local(hostname: &str, addr: Option<u32>) -> MyNodeInfo {
    MyNodeInfo {
        virtual_ipv4: addr.and_then(|a| inet(a, 24)),
        hostname: hostname.to_string(),
        version: "2.2.4".to_string(),
        ips: None,
        stun_info: None,
        listeners: vec![],
        vpn_portal_cfg: None,
    }
}

fn bare(route: Route) -> PeerRoutePair {
    PeerRoutePair { route: Some(route), peer: None }
}

fn snapshot(node: Option<MyNodeInfo>, routes: Vec<Route>, peers: Vec<PeerInfo>) -> Snapshot {
    let pairs = routes
        .iter()
        .map(|r| PeerRoutePair {
            route: Some(r.clone()),
            peer: peers.iter().find(|p| p.peer_id == r.peer_id).cloned(),
        })
        .collect();
    Snapshot {
        dev_name: "tun0".to_string(),
        my_node_info: node,
        events: vec![],
        routes,
        peers,
        peer_route_pairs: pairs,
        running: true,
        error_msg: None,
    }
}

fn no_loss() -> LossRollup {
    LossRollup { terms: vec![], divisor: 1 }
}

fn hop(ip: &str, name: &str) -> NodeHopStats {
    NodeHopStats {
        target_ip: ip.to_string(),
        latency_us: 0,
        packet_loss: no_loss(),
        node_name: name.to_string(),
    }
}

fn names(hops: &[NodeHopStats]) -> Vec<String> {
    hops.iter().map(|h| h.node_name.clone()).collect()
}

fn to_ms(latency_us: u64) -> f64 {
    latency_us as f64 / 1000.0
}

#[test]
fn dotted_quad_of_common_addresses() {
    assert_eq!(ipv4_text(ip(10, 0, 0, 1)), "10.0.0.1");
    assert_eq!(ipv4_text(0), "0.0.0.0");
    assert_eq!(ipv4_text(u32::MAX), "255.255.255.255");
    assert_eq!(ipv4_text(ip(192, 168, 100, 9)), "192.168.100.9");
}

#[test]
fn cidr_text_appends_prefix_length() {
    assert_eq!(cidr_text(ip(10, 144, 144, 7), 24), "10.144.144.7/24");
    assert_eq!(cidr_text(ip(1, 2, 3, 4), 0), "1.2.3.4/0");
    assert_eq!(cidr_text(0, 4294967295), "0.0.0.0/4294967295");
}

#[test]
fn decimal_has_no_leading_zeros() {
    let mut s = String::from("n=");
    push_decimal(&mut s, 0);
    push_decimal(&mut s, 10);
    push_decimal(&mut s, 4294967295);
    assert_eq!(s, "n=0104294967295");
}

#[test]
fn signed_decimal_covers_the_whole_range() {
    let mut s = String::new();
    push_signed_decimal(&mut s, -1);
    s.push(' ');
    push_signed_decimal(&mut s, i32::MIN);
    s.push(' ');
    push_signed_decimal(&mut s, i32::MAX);
    s.push(' ');
    push_signed_decimal(&mut s, 0);
    assert_eq!(s, "-1 -2147483648 2147483647 0");
}

#[test]
fn min_latency_skips_connections_without_stats() {
    let conns = vec![conn(true, None, 0.0), conn(true, Some(900), 0.0), conn(true, Some(300), 0.0)];
    assert_eq!(min_latency_us(&conns), Some(300));
    assert_eq!(min_latency_us(&vec![conn(true, None, 0.0)]), None);
    assert_eq!(min_latency_us(&vec![]), None);
    assert_eq!(min_latency_us(&vec![conn(true, Some(u64::MAX), 0.0)]), Some(u64::MAX));
}

#[test]
fn hop_latency_is_zero_without_statistics() {
    assert_eq!(hop_latency_us(None), 0);
    let silent = PeerInfo { peer_id: 2, conns: vec![conn(true, None, 0.0)] };
    assert_eq!(hop_latency_us(Some(&silent)), 0);
    let live = PeerInfo { peer_id: 2, conns: vec![conn(true, Some(1500), 0.0)] };
    assert_eq!(hop_latency_us(Some(&live)), 1500);
}

#[test]
fn node_latency_falls_back_to_path_latency() {
    let r = route(2, None, 2, 5000, "B");
    assert_eq!(node_latency_us(&r, None), 5000);
    assert_eq!(to_ms(node_latency_us(&r, None)), 5.0);
    let empty = PeerInfo { peer_id: 2, conns: vec![] };
    assert_eq!(node_latency_us(&r, Some(&empty)), 5000);
    let silent = PeerInfo { peer_id: 2, conns: vec![conn(true, None, 0.1)] };
    assert_eq!(node_latency_us(&r, Some(&silent)), 5000);
}

#[test]
fn node_latency_clamps_negative_path_latency() {
    let r = route(2, None, 2, -40, "B");
    assert_eq!(node_latency_us(&r, None), 0);
    let zero = route(2, None, 2, 0, "B");
    assert_eq!(node_latency_us(&zero, None), 0);
    let top = route(2, None, 2, i32::MAX, "B");
    assert_eq!(node_latency_us(&top, None), 2147483647);
}

#[test]
fn node_latency_prefers_the_fastest_connection() {
    let r = route(2, None, 2, 5000, "B");
    let live = PeerInfo {
        peer_id: 2,
        conns: vec![conn(true, Some(7000), 0.0), conn(false, Some(1200), 0.0)],
    };
    assert_eq!(node_latency_us(&r, Some(&live)), 1200);
    assert_eq!(to_ms(node_latency_us(&r, Some(&live))), 1.2);
    let slow = PeerInfo { peer_id: 2, conns: vec![conn(true, Some(5_000_000_000), 0.0)] };
    assert_eq!(node_latency_us(&r, Some(&slow)), 5_000_000_000);
}

#[test]
fn loss_rollups_differ_in_their_divisor() {
    let peer = PeerInfo {
        peer_id: 2,
        conns: vec![conn(true, None, 0.25), conn(true, None, 0.5), conn(true, None, 0.125)],
    };
    let total = total_loss_rate(Some(&peer));
    let mean = mean_loss_rate(Some(&peer));
    let bits: Vec<LossRate> =
        [0.25f32, 0.5, 0.125].iter().map(|f| LossRate { bits: f.to_bits() }).collect();
    assert_eq!(total, LossRollup { terms: bits.clone(), divisor: 1 });
    assert_eq!(mean, LossRollup { terms: bits, divisor: 3 });
    let sum: f32 = total.terms.iter().map(|t| f32::from_bits(t.bits)).sum();
    assert_eq!(sum / total.divisor as f32, 0.875);
    assert_eq!(sum / mean.divisor as f32, 0.875 / 3.0);
}

#[test]
fn loss_rollups_of_nothing_divide_by_one() {
    assert_eq!(total_loss_rate(None), no_loss());
    assert_eq!(mean_loss_rate(None), no_loss());
    let empty = PeerInfo { peer_id: 2, conns: vec![] };
    assert_eq!(total_loss_rate(Some(&empty)), no_loss());
    assert_eq!(mean_loss_rate(Some(&empty)), no_loss());
}

#[test]
fn nat_codes_map_to_their_names() {
    let known = [
        (0, "Unknown"),
        (1, "OpenInternet"),
        (2, "NoPat"),
        (3, "FullCone"),
        (4, "Restricted"),
        (5, "PortRestricted"),
        (6, "Symmetric"),
        (7, "SymUdpFirewall"),
        (8, "SymmetricEasyInc"),
        (9, "SymmetricEasyDec"),
    ];
    for (code, name) in known {
        assert_eq!(NatType::from_code(code).label(), name);
    }
    assert_eq!(NatType::from_code(3), NatType::FullCone);
}

#[test]
fn nat_codes_out_of_range_are_unknown() {
    for code in [-1, 10, 11, 255, i32::MIN, i32::MAX] {
        assert_eq!(NatType::from_code(code), NatType::Unknown);
    }
    assert_eq!(nat_classification(None), "Unknown");
    let stun = StunInfo {
        udp_nat_type: 6,
        tcp_nat_type: 0,
        last_update_time: 0,
        public_ip: vec![],
        min_port: 0,
        max_port: 0,
    };
    assert_eq!(nat_classification(Some(&stun)), "Symmetric");
    let odd = StunInfo { udp_nat_type: 42, ..stun };
    assert_eq!(nat_classification(Some(&odd)), "Unknown");
}

#[test]
fn local_peer_is_the_first_with_a_server_connection() {
    let peers = vec![
        PeerInfo { peer_id: 7, conns: vec![conn(true, None, 0.0)] },
        PeerInfo { peer_id: 9, conns: vec![conn(true, None, 0.0), conn(false, None, 0.0)] },
        PeerInfo { peer_id: 4, conns: vec![conn(false, None, 0.0)] },
    ];
    assert_eq!(infer_local_peer_id(&peers), 9);
    assert_eq!(infer_local_peer_id(&peers[..1].to_vec()), 0);
    assert_eq!(infer_local_peer_id(&vec![]), 0);
    assert_eq!(find_peer_index(&peers, 4), Some(2));
    assert_eq!(find_peer_index(&peers, 5), None);
}

#[test]
fn pairing_appends_a_self_referential_local_pair() {
    let peers = vec![PeerInfo { peer_id: 9, conns: vec![conn(false, Some(10), 0.0)] }];
    let routes = vec![route(2, None, 2, 0, "B")];
    let s = snapshot(Some(local("A", Some(ip(10, 0, 0, 1)))), routes, peers);
    let pairs = pair(&s);
    assert_eq!(pairs.len(), 2);
    assert_eq!(pairs[0], s.peer_route_pairs[0]);
    let own = pairs[1].route.as_ref().unwrap();
    assert_eq!(own.peer_id, 9);
    assert_eq!(own.next_hop_peer_id, own.peer_id);
    assert_eq!(own.cost, 0);
    assert_eq!(own.path_latency, 0);
    assert_eq!(own.hostname, "A");
    assert_eq!(own.inst_id, "local");
    assert_eq!(own.version, "2.2.4");
    assert_eq!(own.ipv4_addr, inet(ip(10, 0, 0, 1), 24));
    assert!(own.proxy_cidrs.is_empty());
    assert_eq!(pairs[1].peer, Some(s.peers[0].clone()));
    assert_eq!(local_pair_for(s.my_node_info.as_ref().unwrap(), &s.peers), pairs[1]);
}

#[test]
fn pairing_is_pure() {
    let s = snapshot(Some(local("A", None)), vec![route(2, None, 2, 0, "B")], vec![]);
    assert_eq!(pair(&s), pair(&s));
    assert_eq!(pair(&s), pair(&s.clone()));
    let own = pair(&s).pop().unwrap();
    assert_eq!(own.route.as_ref().unwrap().peer_id, 0);
    assert_eq!(own.route.as_ref().unwrap().next_hop_peer_id, 0);
    assert_eq!(own.peer, None);
}

#[test]
fn pairing_without_local_node_changes_nothing() {
    let s = snapshot(None, vec![route(2, None, 2, 0, "B"), route(3, None, 2, 0, "C")], vec![]);
    assert_eq!(pair(&s), s.peer_route_pairs);
}

#[test]
fn lookups_return_the_first_match() {
    let pairs = vec![
        PeerRoutePair { route: None, peer: None },
        bare(route(5, None, 5, 0, "first")),
        bare(route(5, None, 5, 0, "second")),
    ];
    assert_eq!(find_pair_index(&pairs, 5), Some(1));
    assert_eq!(find_pair_index(&pairs, 6), None);
    let routes =
        vec![route(1, None, 1, 0, "x"), route(5, None, 1, 0, "y"), route(5, None, 2, 0, "z")];
    assert_eq!(find_route_index(&routes, 5), Some(1));
    assert_eq!(find_route_index(&routes, 0), None);
}

#[test]
fn hops_carry_address_name_latency_and_mean_loss() {
    let r = route(2, Some(ip(10, 0, 0, 2)), 2, 5000, "B");
    let peer = PeerInfo {
        peer_id: 2,
        conns: vec![conn(true, Some(4000), 0.5), conn(true, Some(2500), 0.25)],
    };
    let h = hop_for(&r, Some(&peer));
    assert_eq!(h.target_ip, "10.0.0.2");
    assert_eq!(h.node_name, "B");
    assert_eq!(h.latency_us, 2500);
    assert_eq!(to_ms(h.latency_us), 2.5);
    assert_eq!(h.packet_loss.divisor, 2);
    let sum: f32 = h.packet_loss.terms.iter().map(|t| f32::from_bits(t.bits)).sum();
    assert_eq!(sum / h.packet_loss.divisor as f32, 0.375);
    assert_eq!(hop_for(&route(3, None, 3, 0, "C"), None), hop("", "C"));
}

#[test]
fn local_hop_uses_hostname_where_address_is_missing() {
    assert_eq!(local_hop_for(&local("A", Some(ip(10, 0, 0, 1)))), hop("10.0.0.1", "A"));
    assert_eq!(local_hop_for(&local("A", None)), hop("A", "A"));
    let unset = MyNodeInfo {
        virtual_ipv4: Some(Ipv4Inet { address: None, network_length: 24 }),
        ..local("host", None)
    };
    assert_eq!(local_hop_for(&unset), hop("host", "host"));
}

#[test]
fn direct_destination_gives_local_and_destination() {
    let b = route(2, Some(ip(10, 0, 0, 2)), 2, 5000, "B");
    let pairs = vec![bare(b.clone())];
    let routes = vec![b.clone()];
    let path = reconstruct_path(&pairs, &local("A", Some(ip(10, 0, 0, 1))), &routes, &b, None);
    assert_eq!(path, vec![hop("10.0.0.1", "A"), hop("10.0.0.2", "B")]);
}

#[test]
fn destination_behind_a_relay_gives_three_hops() {
    let b = route(2, Some(ip(10, 0, 0, 2)), 2, 1000, "B");
    let c = route(3, Some(ip(10, 0, 0, 3)), 2, 2000, "C");
    let pairs = vec![bare(b.clone()), bare(c.clone())];
    let routes = vec![b, c.clone()];
    let path = reconstruct_path(&pairs, &local("A", Some(ip(10, 0, 0, 1))), &routes, &c, None);
    assert_eq!(
        path,
        vec![hop("10.0.0.1", "A"), hop("10.0.0.2", "B"), hop("10.0.0.3", "C")]
    );
}

#[test]
fn mutual_next_hop_cycle_terminates() {
    let b = route(2, None, 3, 0, "B");
    let c = route(3, None, 2, 0, "C");
    let pairs = vec![bare(b.clone()), bare(c.clone())];
    let routes = vec![b.clone(), c];
    let path = reconstruct_path(&pairs, &local("A", None), &routes, &b, None);
    assert_eq!(names(&path), ["A", "C", "B"]);
    assert!(path.len() <= 2 + 1);
}

#[test]
fn cycle_before_the_destination_is_cut_and_destination_appended() {
    let b = route(2, None, 3, 0, "B");
    let c = route(3, None, 2, 0, "C");
    let d = route(4, None, 2, 0, "D");
    let pairs = vec![bare(b.clone()), bare(c.clone()), bare(d.clone())];
    let routes = vec![b, c, d.clone()];
    let path = reconstruct_path(&pairs, &local("A", None), &routes, &d, None);
    assert_eq!(names(&path), ["A", "B", "C", "D"]);
    assert!(path.len() <= 3 + 1);
}

#[test]
fn self_loop_and_zero_next_hop_end_the_walk() {
    let b = route(2, None, 0, 0, "B");
    let c = route(3, None, 2, 0, "C");
    let pairs = vec![bare(b.clone()), bare(c.clone())];
    let mut visited = HashSet::new();
    let hops = collect_hops(&pairs, 2, &mut visited);
    assert_eq!(names(&hops), ["B"]);
    assert_eq!(visited, HashSet::from([2]));
    let mut again = HashSet::from([2]);
    assert!(collect_hops(&pairs, 2, &mut again).is_empty());
    assert_eq!(again, HashSet::from([2]));
}

#[test]
fn dangling_next_hop_ends_the_walk() {
    let c = route(3, None, 77, 0, "C");
    let pairs = vec![bare(c.clone())];
    let mut visited = HashSet::new();
    let hops = collect_hops(&pairs, 3, &mut visited);
    assert_eq!(names(&hops), ["C"]);
    assert_eq!(visited, HashSet::from([3, 77]));
    let routes = vec![c.clone()];
    let d = route(4, None, 77, 0, "D");
    let path = reconstruct_path(&pairs, &local("A", None), &vec![d.clone()], &d, None);
    assert_eq!(names(&path), ["A", "D"]);
    let path = reconstruct_path(&pairs, &local("A", None), &routes, &c, None);
    assert_eq!(names(&path), ["A", "C"]);
}

#[test]
fn unknown_destination_still_ends_the_path() {
    let d = route(4, Some(ip(10, 0, 0, 4)), 4, 0, "D");
    let path = reconstruct_path(&vec![], &local("A", None), &vec![], &d, None);
    assert_eq!(path, vec![hop("A", "A"), hop("10.0.0.4", "D")]);
}

#[test]
fn walk_never_repeats_a_peer() {
    let routes: Vec<Route> =
        (1..=6).map(|i| route(i, None, i % 6 + 1, 0, &format!("n{}", i))).collect();
    let pairs: Vec<PeerRoutePair> = routes.iter().cloned().map(bare).collect();
    let mut visited = HashSet::new();
    let hops = collect_hops(&pairs, 4, &mut visited);
    assert_eq!(names(&hops), ["n4", "n5", "n6", "n1", "n2", "n3"]);
    assert_eq!(visited.len(), 6);
    let path = reconstruct_path(&pairs, &local("A", None), &routes, &routes[0], None);
    assert_eq!(names(&path), ["A", "n2", "n3", "n4", "n5", "n6", "n1"]);
    assert!(path.len() <= 6 + 1);
}

#[test]
fn status_of_one_peer_without_connections() {
    let s = snapshot(
        Some(local("A", Some(ip(10, 0, 0, 1)))),
        vec![route(2, Some(ip(10, 0, 0, 2)), 2, 5000, "B")],
        vec![],
    );
    let status = network_status(&s);
    assert_eq!(status.total_nodes, 2);
    assert_eq!(status.nodes.len(), 2);
    let b = &status.nodes[0];
    assert_eq!(b.hostname, "B");
    assert_eq!(b.ipv4, "10.0.0.2");
    assert_eq!(b.latency_us, 5000);
    assert_eq!(to_ms(b.latency_us), 5.0);
    assert_eq!(b.hops, vec![hop("10.0.0.1", "A"), hop("10.0.0.2", "B")]);
    assert_eq!(b.loss_rate, no_loss());
    assert_eq!(b.nat, "Unknown");
    assert!(b.connections.is_empty());
    assert_eq!(b.version, "2.2.4");
    assert_eq!(b.cost, 1);
    assert_eq!(status.nodes.iter().filter(|n| n.hostname == "B").count(), 1);
    let a = &status.nodes[1];
    assert_eq!(a.hostname, "A");
    assert_eq!(a.cost, 0);
    assert_eq!(a.latency_us, 0);
}

#[test]
fn status_lists_connections_that_have_statistics() {
    let peer = PeerInfo {
        peer_id: 2,
        conns: vec![
            conn(true, Some(800), 0.5),
            conn(true, None, 0.25),
            PeerConnInfo { tunnel: None, ..conn(true, Some(900), 0.0) },
        ],
    };
    let r = route(2, None, 2, 5000, "B");
    let node = describe_node(&vec![], None, &vec![], &r, Some(&peer));
    assert_eq!(node.ipv4, "0.0.0.0");
    assert_eq!(node.latency_us, 800);
    assert_eq!(node.loss_rate.divisor, 1);
    assert_eq!(node.loss_rate.terms.len(), 3);
    assert_eq!(node.connections.len(), 2);
    assert_eq!(node.connections[0].conn_type, "udp");
    assert_eq!(node.connections[0].rx_bytes, 10);
    assert_eq!(node.connections[0].tx_bytes, 20);
    assert_eq!(node.connections[0].rx_packets, 1);
    assert_eq!(node.connections[0].tx_packets, 2);
    assert_eq!(node.connections[1].conn_type, "未知");
    assert_eq!(names(&node.hops), ["B"]);
}

#[test]
fn status_skips_pairs_without_route() {
    let mut s = snapshot(None, vec![route(2, None, 2, 0, "B")], vec![]);
    s.peer_route_pairs.insert(0, PeerRoutePair { route: None, peer: None });
    let status = network_status(&s);
    assert_eq!(status.total_nodes, 1);
    assert_eq!(status.nodes[0].hostname, "B");
    assert_eq!(names(&status.nodes[0].hops), ["B"]);
}

#[test]
fn all_ips_lists_each_address_once() {
    let mut routes = vec![
        route(2, Some(ip(10, 0, 0, 2)), 2, 0, "B"),
        route(3, None, 3, 0, "C"),
        route(4, Some(ip(10, 0, 0, 4)), 4, 0, "D"),
        route(5, Some(ip(10, 0, 0, 2)), 5, 0, "E"),
    ];
    routes.push(Route {
        ipv4_addr: Some(Ipv4Inet {
            address: Some(Ipv4Addr { addr: ip(10, 0, 0, 2) }),
            network_length: 16,
        }),
        ..route(6, None, 6, 0, "F")
    });
    routes.push(Route {
        ipv4_addr: Some(Ipv4Inet { address: None, network_length: 24 }),
        ..route(7, None, 7, 0, "G")
    });
    let s = snapshot(None, routes, vec![]);
    assert_eq!(all_ips(&s), ["10.0.0.2/24", "10.0.0.4/24", "10.0.0.2/16"]);
    assert!(all_ips(&snapshot(None, vec![], vec![])).is_empty());
}

#[test]
fn direct_node_in_the_status_has_two_hops() {
    let peer = PeerInfo { peer_id: 3, conns: vec![conn(true, Some(700), 0.5)] };
    let s = snapshot(
        Some(local("A", Some(ip(10, 0, 0, 1)))),
        vec![
            route(2, Some(ip(10, 0, 0, 2)), 2, 5000, "B"),
            route(3, Some(ip(10, 0, 0, 3)), 3, 0, "C"),
            route(4, Some(ip(10, 0, 0, 4)), 3, 0, "D"),
        ],
        vec![peer],
    );
    let status = network_status(&s);
    assert_eq!(status.total_nodes, 4);
    let b = &status.nodes[0];
    assert_eq!(b.hops, vec![hop("10.0.0.1", "A"), hop("10.0.0.2", "B")]);
    let c = &status.nodes[1];
    assert_eq!(c.hops.len(), 2);
    assert_eq!(c.hops[0], hop("10.0.0.1", "A"));
    assert_eq!(to_ms(c.hops[0].latency_us), 0.0);
    assert_eq!(c.hops[1].node_name, "C");
    assert_eq!(c.hops[1].target_ip, "10.0.0.3");
    assert_eq!(c.hops[1].latency_us, 700);
    assert_eq!(names(&status.nodes[2].hops), ["A", "C", "D"]);
}
