//! The derived topology view: one entry per node with its address, latency,
//! loss, NAT classification, connections and hop path; and the list of all
//! addresses in the routing table.

use vstd::prelude::*;
use crate::metrics::{
    nat_classification, nat_label, node_latency, node_latency_us, total_loss, total_loss_rate,
    LossRollup, LossRollupView,
};
use crate::model::{
    MyNodeInfo, MyNodeInfoView, PeerConnInfo, PeerConnInfoView, PeerInfo, PeerInfoView,
    PeerRoutePair, PeerRoutePairView, Route, RouteView, Snapshot, SnapshotView,
};
use crate::pairing::{pair, paired};
use crate::path::{
    agrees_on_destination, find_pair, hop_for, hop_of, inet_address, lemma_direct_where_agreed,
    lemma_find_pair, lemma_unique_route_found, local_hop, path, reconstruct_path,
    unique_pair_ids, unique_route_ids, NodeHopStats, NodeHopStatsView,
};
use crate::text::{cidr, cidr_text, dotted_quad, ipv4_text};

verus! {

/// Traffic counters of one connection of a node, with the kind of tunnel
/// under it.
#[derive(Debug, PartialEq, Eq)]
pub struct KVNodeConnectionStats {
    pub conn_type: String,
    pub rx_bytes: u64,
    pub tx_bytes: u64,
    pub rx_packets: u64,
    pub tx_packets: u64,
}

/// The view of a `KVNodeConnectionStats`: its strings and vectors as sequences.
pub struct KVNodeConnectionStatsView {
    pub conn_type: Seq<char>,
    pub rx_bytes: u64,
    pub tx_bytes: u64,
    pub rx_packets: u64,
    pub tx_packets: u64,
}

impl DeepView for KVNodeConnectionStats {
    type V = KVNodeConnectionStatsView;

    open spec fn deep_view(&self) -> KVNodeConnectionStatsView {
        KVNodeConnectionStatsView {
            conn_type: self.conn_type@,
            rx_bytes: self.rx_bytes,
            tx_bytes: self.tx_bytes,
            rx_packets: self.rx_packets,
            tx_packets: self.tx_packets,
        }
    }
}

impl Clone for KVNodeConnectionStats {
    fn clone(&self) -> (r: Self)
        ensures
            r.deep_view() == self.deep_view(),
    {
        KVNodeConnectionStats {
            conn_type: self.conn_type.clone(),
            rx_bytes: self.rx_bytes,
            tx_bytes: self.tx_bytes,
            rx_packets: self.rx_packets,
            tx_packets: self.tx_packets,
        }
    }
}

/// One node of the mesh as the topology view shows it. The latency is in
/// microseconds; the loss rate is the rollup that yields the node's loss;
/// the hops run from the local node to this one.
#[derive(Debug, PartialEq, Eq)]
pub struct KVNodeInfo {
    pub hostname: String,
    pub ipv4: String,
    pub latency_us: u64,
    pub nat: String,
    pub hops: Vec<NodeHopStats>,
    pub loss_rate: LossRollup,
    pub connections: Vec<KVNodeConnectionStats>,
    pub version: String,
    pub cost: i32,
}

/// The view of a `KVNodeInfo`: its strings and vectors as sequences.
pub struct KVNodeInfoView {
    pub hostname: Seq<char>,
    pub ipv4: Seq<char>,
    pub latency_us: u64,
    pub nat: Seq<char>,
    pub hops: Seq<NodeHopStatsView>,
    pub loss_rate: LossRollupView,
    pub connections: Seq<KVNodeConnectionStatsView>,
    pub version: Seq<char>,
    pub cost: i32,
}

impl DeepView for KVNodeInfo {
    type V = KVNodeInfoView;

    open spec fn deep_view(&self) -> KVNodeInfoView {
        KVNodeInfoView {
            hostname: self.hostname@,
            ipv4: self.ipv4@,
            latency_us: self.latency_us,
            nat: self.nat@,
            hops: self.hops.deep_view(),
            loss_rate: self.loss_rate.deep_view(),
            connections: self.connections.deep_view(),
            version: self.version@,
            cost: self.cost,
        }
    }
}

impl Clone for KVNodeInfo {
    fn clone(&self) -> (r: Self)
        ensures
            r.deep_view() == self.deep_view(),
    {
        KVNodeInfo {
            hostname: self.hostname.clone(),
            ipv4: self.ipv4.clone(),
            latency_us: self.latency_us,
            nat: self.nat.clone(),
            hops: self.hops.clone(),
            loss_rate: self.loss_rate.clone(),
            connections: self.connections.clone(),
            version: self.version.clone(),
            cost: self.cost,
        }
    }
}

/// The whole topology view: the nodes and their number.
#[derive(Debug, PartialEq, Eq)]
pub struct KVNetworkStatus {
    pub total_nodes: usize,
    pub nodes: Vec<KVNodeInfo>,
}

/// The view of a `KVNetworkStatus`: its strings and vectors as sequences.
pub struct KVNetworkStatusView {
    pub total_nodes: usize,
    pub nodes: Seq<KVNodeInfoView>,
}

impl DeepView for KVNetworkStatus {
    type V = KVNetworkStatusView;

    open spec fn deep_view(&self) -> KVNetworkStatusView {
        KVNetworkStatusView { total_nodes: self.total_nodes, nodes: self.nodes.deep_view() }
    }
}

impl Clone for KVNetworkStatus {
    fn clone(&self) -> (r: Self)
        ensures
            r.deep_view() == self.deep_view(),
    {
        KVNetworkStatus {
            total_nodes: self.total_nodes,
            nodes: self.nodes.clone(),
        }
    }
}

/// The address shown for a node: dotted quad, or `0.0.0.0` where the route
/// has no address.
pub open spec fn node_address(route: RouteView) -> Seq<char> {
    match inet_address(route.ipv4_addr) {
        Some(a) => dotted_quad(a),
        None => "0.0.0.0"@,
    }
}

/// The kind shown for a connection: its tunnel's type, or a placeholder
/// where the connection has no tunnel descriptor.
pub open spec fn connection_kind(conn: PeerConnInfoView) -> Seq<char> {
    match conn.tunnel {
        Some(t) => t.tunnel_type,
        None => "未知"@,
    }
}

/// The counters shown for a connection with statistics `stats`.
pub open spec fn connection_entry(
    conn: PeerConnInfoView,
    stats: crate::model::PeerConnStats,
) -> KVNodeConnectionStatsView {
    KVNodeConnectionStatsView {
        conn_type: connection_kind(conn),
        rx_bytes: stats.rx_bytes,
        tx_bytes: stats.tx_bytes,
        rx_packets: stats.rx_packets,
        tx_packets: stats.tx_packets,
    }
}

/// The entries of the first `n` connections: one for each connection that
/// has statistics, in order.
pub open spec fn connection_stats(conns: Seq<PeerConnInfoView>, n: int) -> Seq<
    KVNodeConnectionStatsView,
>
    decreases n,
{
    if n <= 0 {
        Seq::empty()
    } else {
        let rest = connection_stats(conns, n - 1);
        match conns[n - 1].stats {
            Some(s) => rest.push(connection_entry(conns[n - 1], s)),
            None => rest,
        }
    }
}

/// The connection entries of a node.
pub open spec fn node_connections(peer: Option<PeerInfoView>) -> Seq<KVNodeConnectionStatsView> {
    match peer {
        Some(p) => connection_stats(p.conns, p.conns.len() as int),
        None => Seq::empty(),
    }
}

/// The hop path shown for a node: the reconstructed path where the local
/// node is known, and the destination alone where it is not.
pub open spec fn node_path(
    pairs: Seq<PeerRoutePairView>,
    local: Option<MyNodeInfoView>,
    routes: Seq<RouteView>,
    route: RouteView,
    peer: Option<PeerInfoView>,
) -> Seq<NodeHopStatsView> {
    match local {
        Some(node) => path(pairs, node, routes, route, peer),
        None => seq![hop_of(route, peer)],
    }
}

/// The entry of the node that `route` leads to and `peer` is the record of.
pub open spec fn node_of(
    pairs: Seq<PeerRoutePairView>,
    local: Option<MyNodeInfoView>,
    routes: Seq<RouteView>,
    route: RouteView,
    peer: Option<PeerInfoView>,
) -> KVNodeInfoView {
    KVNodeInfoView {
        hostname: route.hostname,
        ipv4: node_address(route),
        latency_us: node_latency(route, peer),
        nat: nat_label(route.stun_info),
        hops: node_path(pairs, local, routes, route, peer),
        loss_rate: total_loss(peer),
        connections: node_connections(peer),
        version: route.version,
        cost: route.cost,
    }
}

/// The entries of the first `n` pairs: one for each pair that has a route,
/// in order.
pub open spec fn nodes(
    pairs: Seq<PeerRoutePairView>,
    local: Option<MyNodeInfoView>,
    routes: Seq<RouteView>,
    n: int,
) -> Seq<KVNodeInfoView>
    decreases n,
{
    if n <= 0 {
        Seq::empty()
    } else {
        let rest = nodes(pairs, local, routes, n - 1);
        match pairs[n - 1].route {
            Some(r) => rest.push(node_of(pairs, local, routes, r, pairs[n - 1].peer)),
            None => rest,
        }
    }
}

/// The topology view of a snapshot: an entry for every paired route, the
/// local node's included.
pub open spec fn status_of(snapshot: SnapshotView) -> KVNetworkStatusView {
    let pairs = paired(snapshot);
    let all = nodes(pairs, snapshot.my_node_info, snapshot.routes, pairs.len() as int);
    KVNetworkStatusView { total_nodes: all.len() as usize, nodes: all }
}

/// The topology view where there is no snapshot: no node.
pub open spec fn empty_status() -> KVNetworkStatusView {
    KVNetworkStatusView { total_nodes: 0, nodes: Seq::empty() }
}

/// Whether a snapshot keeps to the rule that a peer has one row in the
/// routing table and one pair.
pub open spec fn well_formed(snapshot: SnapshotView) -> bool {
    unique_route_ids(snapshot.routes) && unique_pair_ids(snapshot.peer_route_pairs)
}

/// Every pair that has a route has its entry in the node list.
pub proof fn lemma_nodes_hold_every_route(
    pairs: Seq<PeerRoutePairView>,
    local: Option<MyNodeInfoView>,
    routes: Seq<RouteView>,
    n: int,
    i: int,
)
    requires
        0 <= i < n <= pairs.len(),
        pairs[i].route is Some,
    ensures
        nodes(pairs, local, routes, n).contains(
            node_of(pairs, local, routes, pairs[i].route->0, pairs[i].peer),
        ),
    decreases n,
{
    let node = node_of(pairs, local, routes, pairs[i].route->0, pairs[i].peer);
    let rest = nodes(pairs, local, routes, n - 1);
    if i < n - 1 {
        lemma_nodes_hold_every_route(pairs, local, routes, n - 1, i);
        let j = choose|j: int| 0 <= j < rest.len() && rest[j] == node;
        assert(nodes(pairs, local, routes, n)[j] == node);
    } else {
        assert(rest.push(node)[rest.len() as int] == node);
    }
}

/// In the topology view of a well-formed snapshot that knows the local node,
/// a node of the routing table that is its own next hop is listed with a
/// path of exactly two hops: the local node and the node itself.
pub proof fn lemma_direct_node_has_two_hops(snapshot: SnapshotView, i: int)
    requires
        well_formed(snapshot),
        snapshot.my_node_info is Some,
        0 <= i < snapshot.peer_route_pairs.len(),
        snapshot.peer_route_pairs[i].route matches Some(t) && t.next_hop_peer_id == t.peer_id
            && snapshot.routes.contains(t),
    ensures
        ({
            let own = snapshot.peer_route_pairs[i];
            let node = node_of(
                paired(snapshot),
                snapshot.my_node_info,
                snapshot.routes,
                own.route->0,
                own.peer,
            );
            &&& status_of(snapshot).nodes.contains(node)
            &&& node.hops == seq![
                local_hop(snapshot.my_node_info->0),
                hop_of(own.route->0, own.peer),
            ]
        }),
{
    let own = snapshot.peer_route_pairs[i];
    let t = own.route->0;
    let all = paired(snapshot);
    assert(all[i] == own);
    lemma_nodes_hold_every_route(
        all,
        snapshot.my_node_info,
        snapshot.routes,
        all.len() as int,
        i,
    );
    let k = choose|k: int| 0 <= k < snapshot.routes.len() && snapshot.routes[k] == t;
    lemma_unique_route_found(snapshot.routes, k);
    lemma_find_pair(all, t.peer_id, 0);
    let found = find_pair(all, t.peer_id, 0)->0;
    if found < i {
        assert(all[found] == snapshot.peer_route_pairs[found]);
    }
    assert(agrees_on_destination(all, snapshot.routes, t, own.peer));
    lemma_direct_where_agreed(all, snapshot.my_node_info->0, snapshot.routes, t, own.peer);
}

/// The addresses of the first `n` routes, each with its prefix length, in
/// order and without repetition. Routes without an address give none.
pub open spec fn addresses(routes: Seq<RouteView>, n: int) -> Seq<Seq<char>>
    decreases n,
{
    if n <= 0 {
        Seq::empty()
    } else {
        let rest = addresses(routes, n - 1);
        match routes[n - 1].ipv4_addr {
            Some(inet) => match inet.address {
                Some(a) => {
                    let ip = cidr(a.addr, inet.network_length);
                    if rest.contains(ip) {
                        rest
                    } else {
                        rest.push(ip)
                    }
                },
                None => rest,
            },
            None => rest,
        }
    }
}

/// The address list never holds an address twice.
pub proof fn lemma_addresses_distinct(routes: Seq<RouteView>, n: int)
    ensures
        addresses(routes, n).no_duplicates(),
    decreases n,
{
    if n > 0 {
        lemma_addresses_distinct(routes, n - 1);
    }
}

/// Every entry of the address list is the address of one of the first `n`
/// routes.
pub proof fn lemma_addresses_sound(routes: Seq<RouteView>, n: int, j: int)
    requires
        0 <= n <= routes.len(),
        0 <= j < addresses(routes, n).len(),
    ensures
        exists|k: int|
            0 <= k < n && inet_address(#[trigger] routes[k].ipv4_addr) is Some && addresses(
                routes,
                n,
            )[j] == cidr(
                inet_address(routes[k].ipv4_addr)->0,
                routes[k].ipv4_addr->0.network_length,
            ),
    decreases n,
{
    let rest = addresses(routes, n - 1);
    if j < rest.len() {
        lemma_addresses_sound(routes, n - 1, j);
        let k = choose|k: int|
            0 <= k < n - 1 && inet_address(#[trigger] routes[k].ipv4_addr) is Some && rest[j]
                == cidr(
                inet_address(routes[k].ipv4_addr)->0,
                routes[k].ipv4_addr->0.network_length,
            );
        assert(0 <= k < n && inet_address(routes[k].ipv4_addr) is Some);
    } else {
        assert(inet_address(routes[n - 1].ipv4_addr) is Some);
    }
}

/// Every route among the first `n` that has an address has it in the list.
pub proof fn lemma_addresses_complete(routes: Seq<RouteView>, n: int, k: int)
    requires
        0 <= k < n <= routes.len(),
        inet_address(routes[k].ipv4_addr) is Some,
    ensures
        addresses(routes, n).contains(
            cidr(inet_address(routes[k].ipv4_addr)->0, routes[k].ipv4_addr->0.network_length),
        ),
    decreases n,
{
    let ip = cidr(inet_address(routes[k].ipv4_addr)->0, routes[k].ipv4_addr->0.network_length);
    let rest = addresses(routes, n - 1);
    if k < n - 1 {
        lemma_addresses_complete(routes, n - 1, k);
        let j = choose|j: int| 0 <= j < rest.len() && rest[j] == ip;
        assert(addresses(routes, n)[j] == ip);
    } else {
        if !rest.contains(ip) {
            assert(rest.push(ip)[rest.len() as int] == ip);
        }
    }
}

fn holds_text(list: &Vec<String>, text: &String) -> (r: bool)
    ensures
        r == list.deep_view().contains(text@),
{
    let mut i: usize = 0;
    while i < list.len()
        invariant
            i <= list.len(),
            forall|j: int| 0 <= j < i ==> list.deep_view()[j] != text@,
        decreases list.len() - i,
    {
        assert(list.deep_view()[i as int] == list[i as int]@);
        if list[i] == *text {
            return true;
        }
        i += 1;
    }
    false
}

/// The addresses of all routes of a snapshot, in routing-table order, each
/// once, in the form `a.b.c.d/len`.
pub fn all_ips(snapshot: &Snapshot) -> (ips: Vec<String>)
    ensures
        ips.deep_view() == addresses(
            snapshot.deep_view().routes,
            snapshot.deep_view().routes.len() as int,
        ),
        ips.deep_view().no_duplicates(),
{
    let ghost routes = snapshot.deep_view().routes;
    let mut ips: Vec<String> = Vec::new();
    let mut i: usize = 0;
    while i < snapshot.routes.len()
        invariant
            i <= snapshot.routes.len(),
            routes == snapshot.deep_view().routes,
            ips.deep_view() == addresses(routes, i as int),
        decreases snapshot.routes.len() - i,
    {
        match &snapshot.routes[i].ipv4_addr {
            Some(inet) => match &inet.address {
                Some(a) => {
                    let ip = cidr_text(a.addr, inet.network_length);
                    if !holds_text(&ips, &ip) {
                        ips.push(ip);
                    }
                },
                None => {},
            },
            None => {},
        }
        i += 1;
    }
    proof {
        lemma_addresses_distinct(routes, routes.len() as int);
    }
    ips
}

fn describe_connections(peer: Option<&PeerInfo>) -> (list: Vec<KVNodeConnectionStats>)
    ensures
        list.deep_view() == node_connections(peer.deep_view()),
{
    let mut list: Vec<KVNodeConnectionStats> = Vec::new();
    match peer {
        None => {
        },
        Some(p) => {
            let ghost conns = p.deep_view().conns;
            let mut j: usize = 0;
            while j < p.conns.len()
                invariant
                    j <= p.conns.len(),
                    conns == p.deep_view().conns,
                    list.deep_view() == connection_stats(conns, j as int),
                decreases p.conns.len() - j,
            {
                let conn = &p.conns[j];
                match &conn.stats {
                    Some(stats) => {
                        let conn_type = match &conn.tunnel {
                            Some(tunnel) => tunnel.tunnel_type.clone(),
                            None => "未知".to_string(),
                        };
                        list.push(
                            KVNodeConnectionStats {
                                conn_type,
                                rx_bytes: stats.rx_bytes,
                                tx_bytes: stats.tx_bytes,
                                rx_packets: stats.rx_packets,
                                tx_packets: stats.tx_packets,
                            },
                        );
                    },
                    None => {},
                }
                j += 1;
            }
        },
    }
    list
}

/// Builds the entry of one node. `pairs`, `local` and `routes` are the
/// snapshot's paired routes, local node and routing table, which the hop
/// path is reconstructed from.
pub fn describe_node(
    pairs: &Vec<PeerRoutePair>,
    local: Option<&MyNodeInfo>,
    routes: &Vec<Route>,
    route: &Route,
    peer: Option<&PeerInfo>,
) -> (node: KVNodeInfo)
    ensures
        node.deep_view() == node_of(
            pairs.deep_view(),
            local.deep_view(),
            routes.deep_view(),
            route.deep_view(),
            peer.deep_view(),
        ),
{
    let ipv4 = match &route.ipv4_addr {
        Some(inet) => match &inet.address {
            Some(a) => ipv4_text(a.addr),
            None => "0.0.0.0".to_string(),
        },
        None => "0.0.0.0".to_string(),
    };
    let hops = match local {
        Some(node) => reconstruct_path(pairs, node, routes, route, peer),
        None => {
            let mut only: Vec<NodeHopStats> = Vec::new();
            only.push(hop_for(route, peer));
            assert(only.deep_view() =~= seq![hop_of(route.deep_view(), peer.deep_view())]);
            only
        },
    };
    KVNodeInfo {
        hostname: route.hostname.clone(),
        ipv4,
        latency_us: node_latency_us(route, peer),
        nat: nat_classification(route.stun_info.as_ref()),
        hops,
        loss_rate: total_loss_rate(peer),
        connections: describe_connections(peer),
        version: route.version.clone(),
        cost: route.cost,
    }
}

/// The topology view of a snapshot.
pub fn network_status(snapshot: &Snapshot) -> (status: KVNetworkStatus)
    ensures
        status.deep_view() == status_of(snapshot.deep_view()),
        status.total_nodes == status.nodes.len(),
{
    let pairs = pair(snapshot);
    let ghost all = pairs.deep_view();
    let ghost local = snapshot.deep_view().my_node_info;
    let ghost routes = snapshot.deep_view().routes;
    let mut list: Vec<KVNodeInfo> = Vec::new();
    let mut i: usize = 0;
    while i < pairs.len()
        invariant
            i <= pairs.len(),
            all == pairs.deep_view(),
            local == snapshot.deep_view().my_node_info,
            routes == snapshot.deep_view().routes,
            list.deep_view() == nodes(all, local, routes, i as int),
        decreases pairs.len() - i,
    {
        match &pairs[i].route {
            Some(route) => {
                let node = describe_node(
                    &pairs,
                    snapshot.my_node_info.as_ref(),
                    &snapshot.routes,
                    route,
                    pairs[i].peer.as_ref(),
                );
                list.push(node);
            },
            None => {},
        }
        i += 1;
    }
    KVNetworkStatus { total_nodes: list.len(), nodes: list }
}

} // verus!
