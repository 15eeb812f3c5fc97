//! The data of one topology snapshot: routes, peers, connection statistics and
//! the local node's identity, as plain values.
//!
//! Every type that owns strings or vectors has a ghost counterpart (`...View`)
//! reached through `deep_view()`; contracts elsewhere in the crate are stated
//! over those counterparts. Types made of scalars only are their own view.

use vstd::prelude::*;

verus! {

/// An IPv4 address as a big-endian 32-bit number.
#[derive(Clone, Copy, Debug, PartialEq, Eq)]
pub struct Ipv4Addr {
    pub addr: u32,
}

impl DeepView for Ipv4Addr {
    type V = Ipv4Addr;

    open spec fn deep_view(&self) -> Ipv4Addr {
        *self
    }
}

/// An IPv4 address with its prefix length; the address itself may be unset.
#[derive(Clone, Copy, Debug, PartialEq, Eq)]
pub struct Ipv4Inet {
    pub address: Option<Ipv4Addr>,
    pub network_length: u32,
}

impl DeepView for Ipv4Inet {
    type V = Ipv4Inet;

    open spec fn deep_view(&self) -> Ipv4Inet {
        *self
    }
}

/// An IPv6 address as four 32-bit words.
#[derive(Clone, Copy, Debug, PartialEq, Eq)]
pub struct Ipv6Addr {
    pub part1: u32,
    pub part2: u32,
    pub part3: u32,
    pub part4: u32,
}

impl DeepView for Ipv6Addr {
    type V = Ipv6Addr;

    open spec fn deep_view(&self) -> Ipv6Addr {
        *self
    }
}

/// Feature flags a peer advertises with its route.
#[derive(Clone, Copy, Debug, PartialEq, Eq)]
pub struct PeerFeatureFlag {
    pub is_public_server: bool,
    pub avoid_relay_data: bool,
    pub kcp_input: bool,
    pub no_relay_kcp: bool,
}

impl DeepView for PeerFeatureFlag {
    type V = PeerFeatureFlag;

    open spec fn deep_view(&self) -> PeerFeatureFlag {
        *self
    }
}

/// Traffic counters and latency (microseconds) of one connection.
#[derive(Clone, Copy, Debug, PartialEq, Eq)]
pub struct PeerConnStats {
    pub rx_bytes: u64,
    pub tx_bytes: u64,
    pub rx_packets: u64,
    pub tx_packets: u64,
    pub latency_us: u64,
}

impl DeepView for PeerConnStats {
    type V = PeerConnStats;

    open spec fn deep_view(&self) -> PeerConnStats {
        *self
    }
}

/// A packet-loss fraction, carried as the bit pattern of an IEEE-754
/// single-precision number. The library never does arithmetic on it: it only
/// decides which rates enter a rollup and by what the sum is divided.
#[derive(Clone, Copy, Debug, PartialEq, Eq)]
pub struct LossRate {
    pub bits: u32,
}

impl DeepView for LossRate {
    type V = LossRate;

    open spec fn deep_view(&self) -> LossRate {
        *self
    }
}

/// A listener or tunnel endpoint.
#[derive(Debug, PartialEq, Eq)]
pub struct Url {
    pub url: String,
}

/// The view of a `Url`: its strings and vectors as sequences.
pub struct UrlView {
    pub url: Seq<char>,
}

impl DeepView for Url {
    type V = UrlView;

    open spec fn deep_view(&self) -> UrlView {
        UrlView { url: self.url@ }
    }
}

impl Clone for Url {
    fn clone(&self) -> (r: Self)
        ensures
            r.deep_view() == self.deep_view(),
    {
        Url { url: self.url.clone() }
    }
}

/// What STUN probing found out about a node's NAT.
#[derive(Debug, PartialEq, Eq)]
pub struct StunInfo {
    pub udp_nat_type: i32,
    pub tcp_nat_type: i32,
    pub last_update_time: i64,
    pub public_ip: Vec<String>,
    pub min_port: u32,
    pub max_port: u32,
}

/// The view of a `StunInfo`: its strings and vectors as sequences.
pub struct StunInfoView {
    pub udp_nat_type: i32,
    pub tcp_nat_type: i32,
    pub last_update_time: i64,
    pub public_ip: Seq<Seq<char>>,
    pub min_port: u32,
    pub max_port: u32,
}

impl DeepView for StunInfo {
    type V = StunInfoView;

    open spec fn deep_view(&self) -> StunInfoView {
        StunInfoView {
            udp_nat_type: self.udp_nat_type,
            tcp_nat_type: self.tcp_nat_type,
            last_update_time: self.last_update_time,
            public_ip: self.public_ip.deep_view(),
            min_port: self.min_port,
            max_port: self.max_port,
        }
    }
}

impl Clone for StunInfo {
    fn clone(&self) -> (r: Self)
        ensures
            r.deep_view() == self.deep_view(),
    {
        StunInfo {
            udp_nat_type: self.udp_nat_type,
            tcp_nat_type: self.tcp_nat_type,
            last_update_time: self.last_update_time,
            public_ip: self.public_ip.clone(),
            min_port: self.min_port,
            max_port: self.max_port,
        }
    }
}

/// One row of the routing table.
#[derive(Debug, PartialEq, Eq)]
pub struct Route {
    pub peer_id: u32,
    pub ipv4_addr: Option<Ipv4Inet>,
    pub next_hop_peer_id: u32,
    pub cost: i32,
    pub path_latency: i32,
    pub proxy_cidrs: Vec<String>,
    pub hostname: String,
    pub stun_info: Option<StunInfo>,
    pub inst_id: String,
    pub version: String,
    pub feature_flag: Option<PeerFeatureFlag>,
    pub next_hop_peer_id_latency_first: Option<u32>,
    pub cost_latency_first: Option<i32>,
    pub path_latency_latency_first: Option<i32>,
}

/// The view of a `Route`: its strings and vectors as sequences.
pub struct RouteView {
    pub peer_id: u32,
    pub ipv4_addr: Option<Ipv4Inet>,
    pub next_hop_peer_id: u32,
    pub cost: i32,
    pub path_latency: i32,
    pub proxy_cidrs: Seq<Seq<char>>,
    pub hostname: Seq<char>,
    pub stun_info: Option<StunInfoView>,
    pub inst_id: Seq<char>,
    pub version: Seq<char>,
    pub feature_flag: Option<PeerFeatureFlag>,
    pub next_hop_peer_id_latency_first: Option<u32>,
    pub cost_latency_first: Option<i32>,
    pub path_latency_latency_first: Option<i32>,
}

impl DeepView for Route {
    type V = RouteView;

    open spec fn deep_view(&self) -> RouteView {
        RouteView {
            peer_id: self.peer_id,
            ipv4_addr: self.ipv4_addr,
            next_hop_peer_id: self.next_hop_peer_id,
            cost: self.cost,
            path_latency: self.path_latency,
            proxy_cidrs: self.proxy_cidrs.deep_view(),
            hostname: self.hostname@,
            stun_info: self.stun_info.deep_view(),
            inst_id: self.inst_id@,
            version: self.version@,
            feature_flag: self.feature_flag,
            next_hop_peer_id_latency_first: self.next_hop_peer_id_latency_first,
            cost_latency_first: self.cost_latency_first,
            path_latency_latency_first: self.path_latency_latency_first,
        }
    }
}

impl Clone for Route {
    fn clone(&self) -> (r: Self)
        ensures
            r.deep_view() == self.deep_view(),
    {
        Route {
            peer_id: self.peer_id,
            ipv4_addr: self.ipv4_addr,
            next_hop_peer_id: self.next_hop_peer_id,
            cost: self.cost,
            path_latency: self.path_latency,
            proxy_cidrs: self.proxy_cidrs.clone(),
            hostname: self.hostname.clone(),
            stun_info: self.stun_info.clone(),
            inst_id: self.inst_id.clone(),
            version: self.version.clone(),
            feature_flag: self.feature_flag,
            next_hop_peer_id_latency_first: self.next_hop_peer_id_latency_first,
            cost_latency_first: self.cost_latency_first,
            path_latency_latency_first: self.path_latency_latency_first,
        }
    }
}

/// The transport under one connection.
#[derive(Debug, PartialEq, Eq)]
pub struct TunnelInfo {
    pub tunnel_type: String,
    pub local_addr: Option<Url>,
    pub remote_addr: Option<Url>,
}

/// The view of a `TunnelInfo`: its strings and vectors as sequences.
pub struct TunnelInfoView {
    pub tunnel_type: Seq<char>,
    pub local_addr: Option<UrlView>,
    pub remote_addr: Option<UrlView>,
}

impl DeepView for TunnelInfo {
    type V = TunnelInfoView;

    open spec fn deep_view(&self) -> TunnelInfoView {
        TunnelInfoView {
            tunnel_type: self.tunnel_type@,
            local_addr: self.local_addr.deep_view(),
            remote_addr: self.remote_addr.deep_view(),
        }
    }
}

impl Clone for TunnelInfo {
    fn clone(&self) -> (r: Self)
        ensures
            r.deep_view() == self.deep_view(),
    {
        TunnelInfo {
            tunnel_type: self.tunnel_type.clone(),
            local_addr: self.local_addr.clone(),
            remote_addr: self.remote_addr.clone(),
        }
    }
}

/// One live transport link to a peer.
#[derive(Debug, PartialEq, Eq)]
pub struct PeerConnInfo {
    pub conn_id: String,
    pub my_peer_id: u32,
    pub peer_id: u32,
    pub features: Vec<String>,
    pub tunnel: Option<TunnelInfo>,
    pub stats: Option<PeerConnStats>,
    pub loss_rate: LossRate,
    pub is_client: bool,
    pub network_name: String,
}

/// The view of a `PeerConnInfo`: its strings and vectors as sequences.
pub struct PeerConnInfoView {
    pub conn_id: Seq<char>,
    pub my_peer_id: u32,
    pub peer_id: u32,
    pub features: Seq<Seq<char>>,
    pub tunnel: Option<TunnelInfoView>,
    pub stats: Option<PeerConnStats>,
    pub loss_rate: LossRate,
    pub is_client: bool,
    pub network_name: Seq<char>,
}

impl DeepView for PeerConnInfo {
    type V = PeerConnInfoView;

    open spec fn deep_view(&self) -> PeerConnInfoView {
        PeerConnInfoView {
            conn_id: self.conn_id@,
            my_peer_id: self.my_peer_id,
            peer_id: self.peer_id,
            features: self.features.deep_view(),
            tunnel: self.tunnel.deep_view(),
            stats: self.stats,
            loss_rate: self.loss_rate,
            is_client: self.is_client,
            network_name: self.network_name@,
        }
    }
}

impl Clone for PeerConnInfo {
    fn clone(&self) -> (r: Self)
        ensures
            r.deep_view() == self.deep_view(),
    {
        PeerConnInfo {
            conn_id: self.conn_id.clone(),
            my_peer_id: self.my_peer_id,
            peer_id: self.peer_id,
            features: self.features.clone(),
            tunnel: self.tunnel.clone(),
            stats: self.stats,
            loss_rate: self.loss_rate,
            is_client: self.is_client,
            network_name: self.network_name.clone(),
        }
    }
}

/// A peer and its live connections.
#[derive(Debug, PartialEq, Eq)]
pub struct PeerInfo {
    pub peer_id: u32,
    pub conns: Vec<PeerConnInfo>,
}

/// The view of a `PeerInfo`: its strings and vectors as sequences.
pub struct PeerInfoView {
    pub peer_id: u32,
    pub conns: Seq<PeerConnInfoView>,
}

impl DeepView for PeerInfo {
    type V = PeerInfoView;

    open spec fn deep_view(&self) -> PeerInfoView {
        PeerInfoView { peer_id: self.peer_id, conns: self.conns.deep_view() }
    }
}

impl Clone for PeerInfo {
    fn clone(&self) -> (r: Self)
        ensures
            r.deep_view() == self.deep_view(),
    {
        PeerInfo { peer_id: self.peer_id, conns: self.conns.clone() }
    }
}

/// A route joined with the peer record of the same node, where there is one.
#[derive(Debug, PartialEq, Eq)]
pub struct PeerRoutePair {
    pub route: Option<Route>,
    pub peer: Option<PeerInfo>,
}

/// The view of a `PeerRoutePair`: its strings and vectors as sequences.
pub struct PeerRoutePairView {
    pub route: Option<RouteView>,
    pub peer: Option<PeerInfoView>,
}

impl DeepView for PeerRoutePair {
    type V = PeerRoutePairView;

    open spec fn deep_view(&self) -> PeerRoutePairView {
        PeerRoutePairView { route: self.route.deep_view(), peer: self.peer.deep_view() }
    }
}

impl Clone for PeerRoutePair {
    fn clone(&self) -> (r: Self)
        ensures
            r.deep_view() == self.deep_view(),
    {
        PeerRoutePair { route: self.route.clone(), peer: self.peer.clone() }
    }
}

/// The addresses a node is reachable at.
#[derive(Debug, PartialEq, Eq)]
pub struct GetIpListResponse {
    pub public_ipv4: Option<Ipv4Addr>,
    pub interface_ipv4s: Vec<Ipv4Addr>,
    pub public_ipv6: Option<Ipv6Addr>,
    pub interface_ipv6s: Vec<Ipv6Addr>,
    pub listeners: Vec<Url>,
}

/// The view of a `GetIpListResponse`: its strings and vectors as sequences.
pub struct GetIpListResponseView {
    pub public_ipv4: Option<Ipv4Addr>,
    pub interface_ipv4s: Seq<Ipv4Addr>,
    pub public_ipv6: Option<Ipv6Addr>,
    pub interface_ipv6s: Seq<Ipv6Addr>,
    pub listeners: Seq<UrlView>,
}

impl DeepView for GetIpListResponse {
    type V = GetIpListResponseView;

    open spec fn deep_view(&self) -> GetIpListResponseView {
        GetIpListResponseView {
            public_ipv4: self.public_ipv4,
            interface_ipv4s: self.interface_ipv4s@,
            public_ipv6: self.public_ipv6,
            interface_ipv6s: self.interface_ipv6s@,
            listeners: self.listeners.deep_view(),
        }
    }
}

impl Clone for GetIpListResponse {
    fn clone(&self) -> (r: Self)
        ensures
            r.deep_view() == self.deep_view(),
    {
        GetIpListResponse {
            public_ipv4: self.public_ipv4,
            interface_ipv4s: self.interface_ipv4s.clone(),
            public_ipv6: self.public_ipv6,
            interface_ipv6s: self.interface_ipv6s.clone(),
            listeners: self.listeners.clone(),
        }
    }
}

/// The identity of the local node.
#[derive(Debug, PartialEq, Eq)]
pub struct MyNodeInfo {
    pub virtual_ipv4: Option<Ipv4Inet>,
    pub hostname: String,
    pub version: String,
    pub ips: Option<GetIpListResponse>,
    pub stun_info: Option<StunInfo>,
    pub listeners: Vec<Url>,
    pub vpn_portal_cfg: Option<String>,
}

/// The view of a `MyNodeInfo`: its strings and vectors as sequences.
pub struct MyNodeInfoView {
    pub virtual_ipv4: Option<Ipv4Inet>,
    pub hostname: Seq<char>,
    pub version: Seq<char>,
    pub ips: Option<GetIpListResponseView>,
    pub stun_info: Option<StunInfoView>,
    pub listeners: Seq<UrlView>,
    pub vpn_portal_cfg: Option<Seq<char>>,
}

impl DeepView for MyNodeInfo {
    type V = MyNodeInfoView;

    open spec fn deep_view(&self) -> MyNodeInfoView {
        MyNodeInfoView {
            virtual_ipv4: self.virtual_ipv4,
            hostname: self.hostname@,
            version: self.version@,
            ips: self.ips.deep_view(),
            stun_info: self.stun_info.deep_view(),
            listeners: self.listeners.deep_view(),
            vpn_portal_cfg: self.vpn_portal_cfg.deep_view(),
        }
    }
}

impl Clone for MyNodeInfo {
    fn clone(&self) -> (r: Self)
        ensures
            r.deep_view() == self.deep_view(),
    {
        MyNodeInfo {
            virtual_ipv4: self.virtual_ipv4,
            hostname: self.hostname.clone(),
            version: self.version.clone(),
            ips: self.ips.clone(),
            stun_info: self.stun_info.clone(),
            listeners: self.listeners.clone(),
            vpn_portal_cfg: self.vpn_portal_cfg.clone(),
        }
    }
}

/// A point-in-time dump of one instance's topology and statistics.
#[derive(Debug, PartialEq, Eq)]
pub struct Snapshot {
    pub dev_name: String,
    pub my_node_info: Option<MyNodeInfo>,
    pub events: Vec<String>,
    pub routes: Vec<Route>,
    pub peers: Vec<PeerInfo>,
    pub peer_route_pairs: Vec<PeerRoutePair>,
    pub running: bool,
    pub error_msg: Option<String>,
}

/// The view of a `Snapshot`: its strings and vectors as sequences.
pub struct SnapshotView {
    pub dev_name: Seq<char>,
    pub my_node_info: Option<MyNodeInfoView>,
    pub events: Seq<Seq<char>>,
    pub routes: Seq<RouteView>,
    pub peers: Seq<PeerInfoView>,
    pub peer_route_pairs: Seq<PeerRoutePairView>,
    pub running: bool,
    pub error_msg: Option<Seq<char>>,
}

impl DeepView for Snapshot {
    type V = SnapshotView;

    open spec fn deep_view(&self) -> SnapshotView {
        SnapshotView {
            dev_name: self.dev_name@,
            my_node_info: self.my_node_info.deep_view(),
            events: self.events.deep_view(),
            routes: self.routes.deep_view(),
            peers: self.peers.deep_view(),
            peer_route_pairs: self.peer_route_pairs.deep_view(),
            running: self.running,
            error_msg: self.error_msg.deep_view(),
        }
    }
}

impl Clone for Snapshot {
    fn clone(&self) -> (r: Self)
        ensures
            r.deep_view() == self.deep_view(),
    {
        Snapshot {
            dev_name: self.dev_name.clone(),
            my_node_info: self.my_node_info.clone(),
            events: self.events.clone(),
            routes: self.routes.clone(),
            peers: self.peers.clone(),
            peer_route_pairs: self.peer_route_pairs.clone(),
            running: self.running,
            error_msg: self.error_msg.clone(),
        }
    }
}

} // verus!
