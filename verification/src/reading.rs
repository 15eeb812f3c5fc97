//! Reading a snapshot back from its document.
//!
//! Members are looked up by key; where a key occurs twice the later member
//! counts. A field that is missing or holds a value of the wrong kind makes
//! the whole reading fail: nothing is made up. An optional field must be
//! present, and is absent in the snapshot exactly where the document holds
//! null. Whole numbers are read by their value, whichever way the document
//! stores them, and must fit the field.

use vstd::prelude::*;
use crate::document::{
    items_of, lemma_array_view, lemma_object_view, members_of, JsonValue, JsonView,
};
use crate::model::{
    GetIpListResponse, GetIpListResponseView, Ipv4Addr, Ipv4Inet, Ipv6Addr, LossRate, MyNodeInfo,
    MyNodeInfoView, PeerConnInfo, PeerConnInfoView, PeerConnStats, PeerFeatureFlag, PeerInfo,
    PeerInfoView, PeerRoutePair, PeerRoutePairView, Route, RouteView, Snapshot, SnapshotView,
    StunInfo, StunInfoView, TunnelInfo, TunnelInfoView, Url, UrlView,
};

verus! {

/// The value of the last member with the given key.
pub open spec fn member(members: Seq<(Seq<char>, JsonView)>, key: Seq<char>) -> Option<JsonView>
    decreases members.len(),
{
    if members.len() == 0 {
        None
    } else if members.last().0 == key {
        Some(members.last().1)
    } else {
        member(members.drop_last(), key)
    }
}

/// Looking a key up after a member was appended finds that member if it has
/// the key, and otherwise what was found before.
pub broadcast proof fn lemma_member_push(
    members: Seq<(Seq<char>, JsonView)>,
    key: Seq<char>,
    value: JsonView,
    wanted: Seq<char>,
)
    ensures
        #[trigger] member(members.push((key, value)), wanted) == if key == wanted {
            Some(value)
        } else {
            member(members, wanted)
        },
{
    assert(members.push((key, value)).drop_last() =~= members);
}

/// The whole number a node holds, whichever way it is stored.
pub open spec fn read_integer(doc: Option<JsonView>) -> Option<int> {
    match doc {
        Some(JsonView::Unsigned(n)) => Some(n as int),
        Some(JsonView::Signed(n)) => Some(n as int),
        _ => None,
    }
}

/// A whole number that fits 32 bits without sign.
pub open spec fn read_u32(doc: Option<JsonView>) -> Option<u32> {
    match read_integer(doc) {
        Some(n) => if 0 <= n <= u32::MAX {
            Some(n as u32)
        } else {
            None
        },
        None => None,
    }
}

/// A whole number that fits 64 bits without sign.
pub open spec fn read_u64(doc: Option<JsonView>) -> Option<u64> {
    match read_integer(doc) {
        Some(n) => if 0 <= n <= u64::MAX {
            Some(n as u64)
        } else {
            None
        },
        None => None,
    }
}

/// A whole number that fits 32 bits with sign.
pub open spec fn read_i32(doc: Option<JsonView>) -> Option<i32> {
    match read_integer(doc) {
        Some(n) => if i32::MIN <= n <= i32::MAX {
            Some(n as i32)
        } else {
            None
        },
        None => None,
    }
}

/// A whole number that fits 64 bits with sign.
pub open spec fn read_i64(doc: Option<JsonView>) -> Option<i64> {
    match read_integer(doc) {
        Some(n) => if i64::MIN <= n <= i64::MAX {
            Some(n as i64)
        } else {
            None
        },
        None => None,
    }
}

/// A truth value.
pub open spec fn read_bool(doc: Option<JsonView>) -> Option<bool> {
    match doc {
        Some(JsonView::Bool(b)) => Some(b),
        _ => None,
    }
}

/// A string.
pub open spec fn read_text(doc: Option<JsonView>) -> Option<Seq<char>> {
    match doc {
        Some(JsonView::Text(s)) => Some(s),
        _ => None,
    }
}

/// A single-precision fraction.
pub open spec fn read_fraction(doc: Option<JsonView>) -> Option<LossRate> {
    match doc {
        Some(JsonView::Fraction(f)) => Some(f),
        _ => None,
    }
}

/// An optional field: it must be there, null reads as absent, and anything
/// else is read by `read`.
pub open spec fn read_optional<T>(
    doc: Option<JsonView>,
    read: spec_fn(Option<JsonView>) -> Option<T>,
) -> Option<Option<T>> {
    match doc {
        None => None,
        Some(JsonView::Null) => Some(None),
        Some(d) => match read(Some(d)) {
            Some(v) => Some(Some(v)),
            None => None,
        },
    }
}

/// An array whose items are each read by `read`.
pub open spec fn read_list<T>(
    doc: Option<JsonView>,
    read: spec_fn(Option<JsonView>) -> Option<T>,
) -> Option<Seq<T>> {
    match doc {
        Some(JsonView::Array(items)) => if forall|i: int|
            0 <= i < items.len() ==> read(Some(#[trigger] items[i])) is Some {
            Some(Seq::new(items.len(), |i: int| read(Some(items[i]))->0))
        } else {
            None
        },
        _ => None,
    }
}

/// An array of strings.
pub open spec fn read_texts(doc: Option<JsonView>) -> Option<Seq<Seq<char>>> {
    read_list(doc, |d: Option<JsonView>| read_text(d))
}

/// `{ addr }`
pub open spec fn read_ipv4(doc: Option<JsonView>) -> Option<Ipv4Addr> {
    match doc {
        Some(JsonView::Object(ms)) => match read_u32(member(ms, "addr"@)) {
            Some(addr) => Some(Ipv4Addr { addr }),
            None => None,
        },
        _ => None,
    }
}

/// `{ address, network_length }`
pub open spec fn read_inet(doc: Option<JsonView>) -> Option<Ipv4Inet> {
    match doc {
        Some(JsonView::Object(ms)) => {
            let address = read_optional(member(ms, "address"@), |d: Option<JsonView>| read_ipv4(d));
            let network_length = read_u32(member(ms, "network_length"@));
            if address is Some && network_length is Some {
                Some(Ipv4Inet { address: address->0, network_length: network_length->0 })
            } else {
                None
            }
        },
        _ => None,
    }
}

/// `{ part1, part2, part3, part4 }`
pub open spec fn read_ipv6(doc: Option<JsonView>) -> Option<Ipv6Addr> {
    match doc {
        Some(JsonView::Object(ms)) => {
            let part1 = read_u32(member(ms, "part1"@));
            let part2 = read_u32(member(ms, "part2"@));
            let part3 = read_u32(member(ms, "part3"@));
            let part4 = read_u32(member(ms, "part4"@));
            if part1 is Some && part2 is Some && part3 is Some && part4 is Some {
                Some(
                    Ipv6Addr {
                        part1: part1->0,
                        part2: part2->0,
                        part3: part3->0,
                        part4: part4->0,
                    },
                )
            } else {
                None
            }
        },
        _ => None,
    }
}

/// `{ url }`
pub open spec fn read_url(doc: Option<JsonView>) -> Option<UrlView> {
    match doc {
        Some(JsonView::Object(ms)) => match read_text(member(ms, "url"@)) {
            Some(url) => Some(UrlView { url }),
            None => None,
        },
        _ => None,
    }
}

/// An array of endpoints.
pub open spec fn read_urls(doc: Option<JsonView>) -> Option<Seq<UrlView>> {
    read_list(doc, |d: Option<JsonView>| read_url(d))
}

/// STUN information, all six fields.
pub open spec fn read_stun(doc: Option<JsonView>) -> Option<StunInfoView> {
    match doc {
        Some(JsonView::Object(ms)) => {
            let udp_nat_type = read_i32(member(ms, "udp_nat_type"@));
            let tcp_nat_type = read_i32(member(ms, "tcp_nat_type"@));
            let last_update_time = read_i64(member(ms, "last_update_time"@));
            let public_ip = read_texts(member(ms, "public_ip"@));
            let min_port = read_u32(member(ms, "min_port"@));
            let max_port = read_u32(member(ms, "max_port"@));
            if udp_nat_type is Some && tcp_nat_type is Some && last_update_time is Some
                && public_ip is Some && min_port is Some && max_port is Some {
                Some(
                    StunInfoView {
                        udp_nat_type: udp_nat_type->0,
                        tcp_nat_type: tcp_nat_type->0,
                        last_update_time: last_update_time->0,
                        public_ip: public_ip->0,
                        min_port: min_port->0,
                        max_port: max_port->0,
                    },
                )
            } else {
                None
            }
        },
        _ => None,
    }
}

/// Feature flags, all four fields.
pub open spec fn read_flag(doc: Option<JsonView>) -> Option<PeerFeatureFlag> {
    match doc {
        Some(JsonView::Object(ms)) => {
            let is_public_server = read_bool(member(ms, "is_public_server"@));
            let avoid_relay_data = read_bool(member(ms, "avoid_relay_data"@));
            let kcp_input = read_bool(member(ms, "kcp_input"@));
            let no_relay_kcp = read_bool(member(ms, "no_relay_kcp"@));
            if is_public_server is Some && avoid_relay_data is Some && kcp_input is Some
                && no_relay_kcp is Some {
                Some(
                    PeerFeatureFlag {
                        is_public_server: is_public_server->0,
                        avoid_relay_data: avoid_relay_data->0,
                        kcp_input: kcp_input->0,
                        no_relay_kcp: no_relay_kcp->0,
                    },
                )
            } else {
                None
            }
        },
        _ => None,
    }
}

/// One row of the routing table, all fourteen fields.
pub open spec fn read_route(doc: Option<JsonView>) -> Option<RouteView> {
    match doc {
        Some(JsonView::Object(ms)) => {
            let peer_id = read_u32(member(ms, "peer_id"@));
            let ipv4_addr = read_optional(
                member(ms, "ipv4_addr"@),
                |d: Option<JsonView>| read_inet(d),
            );
            let next_hop_peer_id = read_u32(member(ms, "next_hop_peer_id"@));
            let cost = read_i32(member(ms, "cost"@));
            let path_latency = read_i32(member(ms, "path_latency"@));
            let proxy_cidrs = read_texts(member(ms, "proxy_cidrs"@));
            let hostname = read_text(member(ms, "hostname"@));
            let stun_info = read_optional(
                member(ms, "stun_info"@),
                |d: Option<JsonView>| read_stun(d),
            );
            let inst_id = read_text(member(ms, "inst_id"@));
            let version = read_text(member(ms, "version"@));
            let feature_flag = read_optional(
                member(ms, "feature_flag"@),
                |d: Option<JsonView>| read_flag(d),
            );
            let next_first = read_optional(
                member(ms, "next_hop_peer_id_latency_first"@),
                |d: Option<JsonView>| read_u32(d),
            );
            let cost_first = read_optional(
                member(ms, "cost_latency_first"@),
                |d: Option<JsonView>| read_i32(d),
            );
            let latency_first = read_optional(
                member(ms, "path_latency_latency_first"@),
                |d: Option<JsonView>| read_i32(d),
            );
            if peer_id is Some && ipv4_addr is Some && next_hop_peer_id is Some && cost is Some
                && path_latency is Some && proxy_cidrs is Some && hostname is Some
                && stun_info is Some && inst_id is Some && version is Some && feature_flag is Some
                && next_first is Some && cost_first is Some && latency_first is Some {
                Some(
                    RouteView {
                        peer_id: peer_id->0,
                        ipv4_addr: ipv4_addr->0,
                        next_hop_peer_id: next_hop_peer_id->0,
                        cost: cost->0,
                        path_latency: path_latency->0,
                        proxy_cidrs: proxy_cidrs->0,
                        hostname: hostname->0,
                        stun_info: stun_info->0,
                        inst_id: inst_id->0,
                        version: version->0,
                        feature_flag: feature_flag->0,
                        next_hop_peer_id_latency_first: next_first->0,
                        cost_latency_first: cost_first->0,
                        path_latency_latency_first: latency_first->0,
                    },
                )
            } else {
                None
            }
        },
        _ => None,
    }
}

/// An array of routes.
pub open spec fn read_routes(doc: Option<JsonView>) -> Option<Seq<RouteView>> {
    read_list(doc, |d: Option<JsonView>| read_route(d))
}

/// `{ tunnel_type, local_addr, remote_addr }`
pub open spec fn read_tunnel(doc: Option<JsonView>) -> Option<TunnelInfoView> {
    match doc {
        Some(JsonView::Object(ms)) => {
            let tunnel_type = read_text(member(ms, "tunnel_type"@));
            let local_addr = read_optional(
                member(ms, "local_addr"@),
                |d: Option<JsonView>| read_url(d),
            );
            let remote_addr = read_optional(
                member(ms, "remote_addr"@),
                |d: Option<JsonView>| read_url(d),
            );
            if tunnel_type is Some && local_addr is Some && remote_addr is Some {
                Some(
                    TunnelInfoView {
                        tunnel_type: tunnel_type->0,
                        local_addr: local_addr->0,
                        remote_addr: remote_addr->0,
                    },
                )
            } else {
                None
            }
        },
        _ => None,
    }
}

/// `{ rx_bytes, tx_bytes, rx_packets, tx_packets, latency_us }`
pub open spec fn read_stats(doc: Option<JsonView>) -> Option<PeerConnStats> {
    match doc {
        Some(JsonView::Object(ms)) => {
            let rx_bytes = read_u64(member(ms, "rx_bytes"@));
            let tx_bytes = read_u64(member(ms, "tx_bytes"@));
            let rx_packets = read_u64(member(ms, "rx_packets"@));
            let tx_packets = read_u64(member(ms, "tx_packets"@));
            let latency_us = read_u64(member(ms, "latency_us"@));
            if rx_bytes is Some && tx_bytes is Some && rx_packets is Some && tx_packets is Some
                && latency_us is Some {
                Some(
                    PeerConnStats {
                        rx_bytes: rx_bytes->0,
                        tx_bytes: tx_bytes->0,
                        rx_packets: rx_packets->0,
                        tx_packets: tx_packets->0,
                        latency_us: latency_us->0,
                    },
                )
            } else {
                None
            }
        },
        _ => None,
    }
}

/// One connection, all nine fields.
pub open spec fn read_conn(doc: Option<JsonView>) -> Option<PeerConnInfoView> {
    match doc {
        Some(JsonView::Object(ms)) => {
            let conn_id = read_text(member(ms, "conn_id"@));
            let my_peer_id = read_u32(member(ms, "my_peer_id"@));
            let peer_id = read_u32(member(ms, "peer_id"@));
            let features = read_texts(member(ms, "features"@));
            let tunnel = read_optional(
                member(ms, "tunnel"@),
                |d: Option<JsonView>| read_tunnel(d),
            );
            let stats = read_optional(member(ms, "stats"@), |d: Option<JsonView>| read_stats(d));
            let loss_rate = read_fraction(member(ms, "loss_rate"@));
            let is_client = read_bool(member(ms, "is_client"@));
            let network_name = read_text(member(ms, "network_name"@));
            if conn_id is Some && my_peer_id is Some && peer_id is Some && features is Some
                && tunnel is Some && stats is Some && loss_rate is Some && is_client is Some
                && network_name is Some {
                Some(
                    PeerConnInfoView {
                        conn_id: conn_id->0,
                        my_peer_id: my_peer_id->0,
                        peer_id: peer_id->0,
                        features: features->0,
                        tunnel: tunnel->0,
                        stats: stats->0,
                        loss_rate: loss_rate->0,
                        is_client: is_client->0,
                        network_name: network_name->0,
                    },
                )
            } else {
                None
            }
        },
        _ => None,
    }
}

/// `{ peer_id, conns }`
pub open spec fn read_peer(doc: Option<JsonView>) -> Option<PeerInfoView> {
    match doc {
        Some(JsonView::Object(ms)) => {
            let peer_id = read_u32(member(ms, "peer_id"@));
            let conns = read_list(member(ms, "conns"@), |d: Option<JsonView>| read_conn(d));
            if peer_id is Some && conns is Some {
                Some(PeerInfoView { peer_id: peer_id->0, conns: conns->0 })
            } else {
                None
            }
        },
        _ => None,
    }
}

/// An array of peers.
pub open spec fn read_peers(doc: Option<JsonView>) -> Option<Seq<PeerInfoView>> {
    read_list(doc, |d: Option<JsonView>| read_peer(d))
}

/// `{ route, peer }`
pub open spec fn read_pair(doc: Option<JsonView>) -> Option<PeerRoutePairView> {
    match doc {
        Some(JsonView::Object(ms)) => {
            let route = read_optional(member(ms, "route"@), |d: Option<JsonView>| read_route(d));
            let peer = read_optional(member(ms, "peer"@), |d: Option<JsonView>| read_peer(d));
            if route is Some && peer is Some {
                Some(PeerRoutePairView { route: route->0, peer: peer->0 })
            } else {
                None
            }
        },
        _ => None,
    }
}

/// An array of pairs.
pub open spec fn read_pairs(doc: Option<JsonView>) -> Option<Seq<PeerRoutePairView>> {
    read_list(doc, |d: Option<JsonView>| read_pair(d))
}

/// An address list, all five fields.
pub open spec fn read_ip_list(doc: Option<JsonView>) -> Option<GetIpListResponseView> {
    match doc {
        Some(JsonView::Object(ms)) => {
            let public_ipv4 = read_optional(
                member(ms, "public_ipv4"@),
                |d: Option<JsonView>| read_ipv4(d),
            );
            let interface_ipv4s = read_list(
                member(ms, "interface_ipv4s"@),
                |d: Option<JsonView>| read_ipv4(d),
            );
            let public_ipv6 = read_optional(
                member(ms, "public_ipv6"@),
                |d: Option<JsonView>| read_ipv6(d),
            );
            let interface_ipv6s = read_list(
                member(ms, "interface_ipv6s"@),
                |d: Option<JsonView>| read_ipv6(d),
            );
            let listeners = read_urls(member(ms, "listeners"@));
            if public_ipv4 is Some && interface_ipv4s is Some && public_ipv6 is Some
                && interface_ipv6s is Some && listeners is Some {
                Some(
                    GetIpListResponseView {
                        public_ipv4: public_ipv4->0,
                        interface_ipv4s: interface_ipv4s->0,
                        public_ipv6: public_ipv6->0,
                        interface_ipv6s: interface_ipv6s->0,
                        listeners: listeners->0,
                    },
                )
            } else {
                None
            }
        },
        _ => None,
    }
}

/// The local node, all seven fields.
pub open spec fn read_node(doc: Option<JsonView>) -> Option<MyNodeInfoView> {
    match doc {
        Some(JsonView::Object(ms)) => {
            let virtual_ipv4 = read_optional(
                member(ms, "virtual_ipv4"@),
                |d: Option<JsonView>| read_inet(d),
            );
            let hostname = read_text(member(ms, "hostname"@));
            let version = read_text(member(ms, "version"@));
            let ips = read_optional(member(ms, "ips"@), |d: Option<JsonView>| read_ip_list(d));
            let stun_info = read_optional(
                member(ms, "stun_info"@),
                |d: Option<JsonView>| read_stun(d),
            );
            let listeners = read_urls(member(ms, "listeners"@));
            let vpn_portal_cfg = read_optional(
                member(ms, "vpn_portal_cfg"@),
                |d: Option<JsonView>| read_text(d),
            );
            if virtual_ipv4 is Some && hostname is Some && version is Some && ips is Some
                && stun_info is Some && listeners is Some && vpn_portal_cfg is Some {
                Some(
                    MyNodeInfoView {
                        virtual_ipv4: virtual_ipv4->0,
                        hostname: hostname->0,
                        version: version->0,
                        ips: ips->0,
                        stun_info: stun_info->0,
                        listeners: listeners->0,
                        vpn_portal_cfg: vpn_portal_cfg->0,
                    },
                )
            } else {
                None
            }
        },
        _ => None,
    }
}

/// The snapshot a document holds, where it holds one.
pub open spec fn read_snapshot(doc: JsonView) -> Option<SnapshotView> {
    match doc {
        JsonView::Object(ms) => {
            let dev_name = read_text(member(ms, "dev_name"@));
            let my_node_info = read_optional(
                member(ms, "my_node_info"@),
                |d: Option<JsonView>| read_node(d),
            );
            let events = read_texts(member(ms, "events"@));
            let routes = read_routes(member(ms, "routes"@));
            let peers = read_peers(member(ms, "peers"@));
            let peer_route_pairs = read_pairs(member(ms, "peer_route_pairs"@));
            let running = read_bool(member(ms, "running"@));
            let error_msg = read_optional(
                member(ms, "error_msg"@),
                |d: Option<JsonView>| read_text(d),
            );
            if dev_name is Some && my_node_info is Some && events is Some && routes is Some
                && peers is Some && peer_route_pairs is Some && running is Some
                && error_msg is Some {
                Some(
                    SnapshotView {
                        dev_name: dev_name->0,
                        my_node_info: my_node_info->0,
                        events: events->0,
                        routes: routes->0,
                        peers: peers->0,
                        peer_route_pairs: peer_route_pairs->0,
                        running: running->0,
                        error_msg: error_msg->0,
                    },
                )
            } else {
                None
            }
        },
        _ => None,
    }
}


fn lookup<'a>(members: &'a Vec<(String, JsonValue)>, key: &str) -> (r: Option<&'a JsonValue>)
    ensures
        r.deep_view() == member(members_of(*members), key@),
{
    let wanted = key.to_string();
    let ghost all = members_of(*members);
    proof {
        lemma_object_view(*members);
        assert(all.take(members.len() as int) =~= all);
    }
    let mut i: usize = members.len();
    while i > 0
        invariant
            i <= members.len(),
            wanted@ == key@,
            all == members_of(*members),
            all.len() == members.len(),
            forall|j: int|
                0 <= j < members.len() ==> #[trigger] all[j] == (
                    members@[j].0@,
                    members@[j].1.deep_view(),
                ),
            member(all, key@) == member(all.take(i as int), key@),
        decreases i,
    {
        let ghost prefix = all.take(i as int);
        assert(prefix.drop_last() =~= all.take(i - 1));
        if members[i - 1].0 == wanted {
            return Some(&members[i - 1].1);
        }
        i -= 1;
    }
    None
}

fn parse_u32(doc: Option<&JsonValue>) -> (r: Option<u32>)
    ensures
        r == read_u32(doc.deep_view()),
{
    match doc {
        Some(JsonValue::Unsigned(n)) => if *n <= 4294967295 {
            Some(*n as u32)
        } else {
            None
        },
        Some(JsonValue::Signed(n)) => if 0 <= *n && *n <= 4294967295 {
            Some(*n as u32)
        } else {
            None
        },
        _ => None,
    }
}

fn parse_u64(doc: Option<&JsonValue>) -> (r: Option<u64>)
    ensures
        r == read_u64(doc.deep_view()),
{
    match doc {
        Some(JsonValue::Unsigned(n)) => Some(*n),
        Some(JsonValue::Signed(n)) => if 0 <= *n {
            Some(*n as u64)
        } else {
            None
        },
        _ => None,
    }
}

fn parse_i32(doc: Option<&JsonValue>) -> (r: Option<i32>)
    ensures
        r == read_i32(doc.deep_view()),
{
    match doc {
        Some(JsonValue::Unsigned(n)) => if *n <= 2147483647 {
            Some(*n as i32)
        } else {
            None
        },
        Some(JsonValue::Signed(n)) => if -2147483648 <= *n && *n <= 2147483647 {
            Some(*n as i32)
        } else {
            None
        },
        _ => None,
    }
}

fn parse_i64(doc: Option<&JsonValue>) -> (r: Option<i64>)
    ensures
        r == read_i64(doc.deep_view()),
{
    match doc {
        Some(JsonValue::Unsigned(n)) => if *n <= 9223372036854775807 {
            Some(*n as i64)
        } else {
            None
        },
        Some(JsonValue::Signed(n)) => Some(*n),
        _ => None,
    }
}

fn parse_bool(doc: Option<&JsonValue>) -> (r: Option<bool>)
    ensures
        r == read_bool(doc.deep_view()),
{
    match doc {
        Some(JsonValue::Bool(b)) => Some(*b),
        _ => None,
    }
}

fn parse_text(doc: Option<&JsonValue>) -> (r: Option<String>)
    ensures
        r.deep_view() == read_text(doc.deep_view()),
{
    match doc {
        Some(JsonValue::Text(s)) => Some(s.clone()),
        _ => None,
    }
}

fn parse_fraction(doc: Option<&JsonValue>) -> (r: Option<LossRate>)
    ensures
        r == read_fraction(doc.deep_view()),
{
    match doc {
        Some(JsonValue::Fraction(f)) => Some(*f),
        _ => None,
    }
}

fn parse_ipv4(doc: Option<&JsonValue>) -> (r: Option<Ipv4Addr>)
    ensures
        r.deep_view() == read_ipv4(doc.deep_view()),
{
    match doc {
        Some(JsonValue::Object(ms)) => {
            let addr = parse_u32(lookup(ms, "addr"))?;
            Some(Ipv4Addr { addr })
        },
        _ => None,
    }
}

fn parse_inet(doc: Option<&JsonValue>) -> (r: Option<Ipv4Inet>)
    ensures
        r.deep_view() == read_inet(doc.deep_view()),
{
    match doc {
        Some(JsonValue::Object(ms)) => {
            let address = parse_optional_ipv4(lookup(ms, "address"))?;
            let network_length = parse_u32(lookup(ms, "network_length"))?;
            Some(Ipv4Inet { address, network_length })
        },
        _ => None,
    }
}

fn parse_ipv6(doc: Option<&JsonValue>) -> (r: Option<Ipv6Addr>)
    ensures
        r.deep_view() == read_ipv6(doc.deep_view()),
{
    match doc {
        Some(JsonValue::Object(ms)) => {
            let part1 = parse_u32(lookup(ms, "part1"))?;
            let part2 = parse_u32(lookup(ms, "part2"))?;
            let part3 = parse_u32(lookup(ms, "part3"))?;
            let part4 = parse_u32(lookup(ms, "part4"))?;
            Some(Ipv6Addr { part1, part2, part3, part4 })
        },
        _ => None,
    }
}

fn parse_url(doc: Option<&JsonValue>) -> (r: Option<Url>)
    ensures
        r.deep_view() == read_url(doc.deep_view()),
{
    match doc {
        Some(JsonValue::Object(ms)) => {
            let url = parse_text(lookup(ms, "url"))?;
            Some(Url { url })
        },
        _ => None,
    }
}

fn parse_stun(doc: Option<&JsonValue>) -> (r: Option<StunInfo>)
    ensures
        r.deep_view() == read_stun(doc.deep_view()),
{
    match doc {
        Some(JsonValue::Object(ms)) => {
            let udp_nat_type = parse_i32(lookup(ms, "udp_nat_type"))?;
            let tcp_nat_type = parse_i32(lookup(ms, "tcp_nat_type"))?;
            let last_update_time = parse_i64(lookup(ms, "last_update_time"))?;
            let public_ip = parse_text_list(lookup(ms, "public_ip"))?;
            let min_port = parse_u32(lookup(ms, "min_port"))?;
            let max_port = parse_u32(lookup(ms, "max_port"))?;
            Some(
                StunInfo {
                    udp_nat_type,
                    tcp_nat_type,
                    last_update_time,
                    public_ip,
                    min_port,
                    max_port,
                },
            )
        },
        _ => None,
    }
}

fn parse_flag(doc: Option<&JsonValue>) -> (r: Option<PeerFeatureFlag>)
    ensures
        r.deep_view() == read_flag(doc.deep_view()),
{
    match doc {
        Some(JsonValue::Object(ms)) => {
            let is_public_server = parse_bool(lookup(ms, "is_public_server"))?;
            let avoid_relay_data = parse_bool(lookup(ms, "avoid_relay_data"))?;
            let kcp_input = parse_bool(lookup(ms, "kcp_input"))?;
            let no_relay_kcp = parse_bool(lookup(ms, "no_relay_kcp"))?;
            Some(PeerFeatureFlag { is_public_server, avoid_relay_data, kcp_input, no_relay_kcp })
        },
        _ => None,
    }
}

fn parse_route(doc: Option<&JsonValue>) -> (r: Option<Route>)
    ensures
        r.deep_view() == read_route(doc.deep_view()),
{
    match doc {
        Some(JsonValue::Object(ms)) => {
            let peer_id = parse_u32(lookup(ms, "peer_id"))?;
            let ipv4_addr = parse_optional_inet(lookup(ms, "ipv4_addr"))?;
            let next_hop_peer_id = parse_u32(lookup(ms, "next_hop_peer_id"))?;
            let cost = parse_i32(lookup(ms, "cost"))?;
            let path_latency = parse_i32(lookup(ms, "path_latency"))?;
            let proxy_cidrs = parse_text_list(lookup(ms, "proxy_cidrs"))?;
            let hostname = parse_text(lookup(ms, "hostname"))?;
            let stun_info = parse_optional_stun(lookup(ms, "stun_info"))?;
            let inst_id = parse_text(lookup(ms, "inst_id"))?;
            let version = parse_text(lookup(ms, "version"))?;
            let feature_flag = parse_optional_flag(lookup(ms, "feature_flag"))?;
            let next_hop_peer_id_latency_first = parse_optional_u32(
                lookup(ms, "next_hop_peer_id_latency_first"),
            )?;
            let cost_latency_first = parse_optional_i32(lookup(ms, "cost_latency_first"))?;
            let path_latency_latency_first = parse_optional_i32(
                lookup(ms, "path_latency_latency_first"),
            )?;
            Some(
                Route {
                    peer_id,
                    ipv4_addr,
                    next_hop_peer_id,
                    cost,
                    path_latency,
                    proxy_cidrs,
                    hostname,
                    stun_info,
                    inst_id,
                    version,
                    feature_flag,
                    next_hop_peer_id_latency_first,
                    cost_latency_first,
                    path_latency_latency_first,
                },
            )
        },
        _ => None,
    }
}

fn parse_tunnel(doc: Option<&JsonValue>) -> (r: Option<TunnelInfo>)
    ensures
        r.deep_view() == read_tunnel(doc.deep_view()),
{
    match doc {
        Some(JsonValue::Object(ms)) => {
            let tunnel_type = parse_text(lookup(ms, "tunnel_type"))?;
            let local_addr = parse_optional_url(lookup(ms, "local_addr"))?;
            let remote_addr = parse_optional_url(lookup(ms, "remote_addr"))?;
            Some(TunnelInfo { tunnel_type, local_addr, remote_addr })
        },
        _ => None,
    }
}

fn parse_stats(doc: Option<&JsonValue>) -> (r: Option<PeerConnStats>)
    ensures
        r.deep_view() == read_stats(doc.deep_view()),
{
    match doc {
        Some(JsonValue::Object(ms)) => {
            let rx_bytes = parse_u64(lookup(ms, "rx_bytes"))?;
            let tx_bytes = parse_u64(lookup(ms, "tx_bytes"))?;
            let rx_packets = parse_u64(lookup(ms, "rx_packets"))?;
            let tx_packets = parse_u64(lookup(ms, "tx_packets"))?;
            let latency_us = parse_u64(lookup(ms, "latency_us"))?;
            Some(PeerConnStats { rx_bytes, tx_bytes, rx_packets, tx_packets, latency_us })
        },
        _ => None,
    }
}

fn parse_conn(doc: Option<&JsonValue>) -> (r: Option<PeerConnInfo>)
    ensures
        r.deep_view() == read_conn(doc.deep_view()),
{
    match doc {
        Some(JsonValue::Object(ms)) => {
            let conn_id = parse_text(lookup(ms, "conn_id"))?;
            let my_peer_id = parse_u32(lookup(ms, "my_peer_id"))?;
            let peer_id = parse_u32(lookup(ms, "peer_id"))?;
            let features = parse_text_list(lookup(ms, "features"))?;
            let tunnel = parse_optional_tunnel(lookup(ms, "tunnel"))?;
            let stats = parse_optional_stats(lookup(ms, "stats"))?;
            let loss_rate = parse_fraction(lookup(ms, "loss_rate"))?;
            let is_client = parse_bool(lookup(ms, "is_client"))?;
            let network_name = parse_text(lookup(ms, "network_name"))?;
            Some(
                PeerConnInfo {
                    conn_id,
                    my_peer_id,
                    peer_id,
                    features,
                    tunnel,
                    stats,
                    loss_rate,
                    is_client,
                    network_name,
                },
            )
        },
        _ => None,
    }
}

fn parse_peer(doc: Option<&JsonValue>) -> (r: Option<PeerInfo>)
    ensures
        r.deep_view() == read_peer(doc.deep_view()),
{
    match doc {
        Some(JsonValue::Object(ms)) => {
            let peer_id = parse_u32(lookup(ms, "peer_id"))?;
            let conns = parse_conn_list(lookup(ms, "conns"))?;
            Some(PeerInfo { peer_id, conns })
        },
        _ => None,
    }
}

fn parse_pair(doc: Option<&JsonValue>) -> (r: Option<PeerRoutePair>)
    ensures
        r.deep_view() == read_pair(doc.deep_view()),
{
    match doc {
        Some(JsonValue::Object(ms)) => {
            let route = parse_optional_route(lookup(ms, "route"))?;
            let peer = parse_optional_peer(lookup(ms, "peer"))?;
            Some(PeerRoutePair { route, peer })
        },
        _ => None,
    }
}

fn parse_ip_list(doc: Option<&JsonValue>) -> (r: Option<GetIpListResponse>)
    ensures
        r.deep_view() == read_ip_list(doc.deep_view()),
{
    match doc {
        Some(JsonValue::Object(ms)) => {
            let public_ipv4 = parse_optional_ipv4(lookup(ms, "public_ipv4"))?;
            let interface_ipv4s = parse_ipv4_list(lookup(ms, "interface_ipv4s"))?;
            let public_ipv6 = parse_optional_ipv6(lookup(ms, "public_ipv6"))?;
            let interface_ipv6s = parse_ipv6_list(lookup(ms, "interface_ipv6s"))?;
            let listeners = parse_url_list(lookup(ms, "listeners"))?;
            assert(interface_ipv4s.deep_view() =~= interface_ipv4s@);
            assert(interface_ipv6s.deep_view() =~= interface_ipv6s@);
            Some(
                GetIpListResponse {
                    public_ipv4,
                    interface_ipv4s,
                    public_ipv6,
                    interface_ipv6s,
                    listeners,
                },
            )
        },
        _ => None,
    }
}

fn parse_node(doc: Option<&JsonValue>) -> (r: Option<MyNodeInfo>)
    ensures
        r.deep_view() == read_node(doc.deep_view()),
{
    match doc {
        Some(JsonValue::Object(ms)) => {
            let virtual_ipv4 = parse_optional_inet(lookup(ms, "virtual_ipv4"))?;
            let hostname = parse_text(lookup(ms, "hostname"))?;
            let version = parse_text(lookup(ms, "version"))?;
            let ips = parse_optional_ip_list(lookup(ms, "ips"))?;
            let stun_info = parse_optional_stun(lookup(ms, "stun_info"))?;
            let listeners = parse_url_list(lookup(ms, "listeners"))?;
            let vpn_portal_cfg = parse_optional_text(lookup(ms, "vpn_portal_cfg"))?;
            Some(
                MyNodeInfo {
                    virtual_ipv4,
                    hostname,
                    version,
                    ips,
                    stun_info,
                    listeners,
                    vpn_portal_cfg,
                },
            )
        },
        _ => None,
    }
}

fn parse_optional_u32(doc: Option<&JsonValue>) -> (r: Option<Option<u32>>)
    ensures
        r.deep_view() == read_optional(doc.deep_view(), |d: Option<JsonView>| read_u32(d)),
{
    match doc {
        None => None,
        Some(JsonValue::Null) => Some(None),
        Some(d) => match parse_u32(Some(d)) {
            Some(v) => Some(Some(v)),
            None => None,
        },
    }
}

fn parse_optional_i32(doc: Option<&JsonValue>) -> (r: Option<Option<i32>>)
    ensures
        r.deep_view() == read_optional(doc.deep_view(), |d: Option<JsonView>| read_i32(d)),
{
    match doc {
        None => None,
        Some(JsonValue::Null) => Some(None),
        Some(d) => match parse_i32(Some(d)) {
            Some(v) => Some(Some(v)),
            None => None,
        },
    }
}

fn parse_optional_text(doc: Option<&JsonValue>) -> (r: Option<Option<String>>)
    ensures
        r.deep_view() == read_optional(doc.deep_view(), |d: Option<JsonView>| read_text(d)),
{
    match doc {
        None => None,
        Some(JsonValue::Null) => Some(None),
        Some(d) => match parse_text(Some(d)) {
            Some(v) => Some(Some(v)),
            None => None,
        },
    }
}

fn parse_optional_ipv4(doc: Option<&JsonValue>) -> (r: Option<Option<Ipv4Addr>>)
    ensures
        r.deep_view() == read_optional(doc.deep_view(), |d: Option<JsonView>| read_ipv4(d)),
{
    match doc {
        None => None,
        Some(JsonValue::Null) => Some(None),
        Some(d) => match parse_ipv4(Some(d)) {
            Some(v) => Some(Some(v)),
            None => None,
        },
    }
}

fn parse_optional_inet(doc: Option<&JsonValue>) -> (r: Option<Option<Ipv4Inet>>)
    ensures
        r.deep_view() == read_optional(doc.deep_view(), |d: Option<JsonView>| read_inet(d)),
{
    match doc {
        None => None,
        Some(JsonValue::Null) => Some(None),
        Some(d) => match parse_inet(Some(d)) {
            Some(v) => Some(Some(v)),
            None => None,
        },
    }
}

fn parse_optional_ipv6(doc: Option<&JsonValue>) -> (r: Option<Option<Ipv6Addr>>)
    ensures
        r.deep_view() == read_optional(doc.deep_view(), |d: Option<JsonView>| read_ipv6(d)),
{
    match doc {
        None => None,
        Some(JsonValue::Null) => Some(None),
        Some(d) => match parse_ipv6(Some(d)) {
            Some(v) => Some(Some(v)),
            None => None,
        },
    }
}

fn parse_optional_url(doc: Option<&JsonValue>) -> (r: Option<Option<Url>>)
    ensures
        r.deep_view() == read_optional(doc.deep_view(), |d: Option<JsonView>| read_url(d)),
{
    match doc {
        None => None,
        Some(JsonValue::Null) => Some(None),
        Some(d) => match parse_url(Some(d)) {
            Some(v) => Some(Some(v)),
            None => None,
        },
    }
}

fn parse_optional_stun(doc: Option<&JsonValue>) -> (r: Option<Option<StunInfo>>)
    ensures
        r.deep_view() == read_optional(doc.deep_view(), |d: Option<JsonView>| read_stun(d)),
{
    match doc {
        None => None,
        Some(JsonValue::Null) => Some(None),
        Some(d) => match parse_stun(Some(d)) {
            Some(v) => Some(Some(v)),
            None => None,
        },
    }
}

fn parse_optional_flag(doc: Option<&JsonValue>) -> (r: Option<Option<PeerFeatureFlag>>)
    ensures
        r.deep_view() == read_optional(doc.deep_view(), |d: Option<JsonView>| read_flag(d)),
{
    match doc {
        None => None,
        Some(JsonValue::Null) => Some(None),
        Some(d) => match parse_flag(Some(d)) {
            Some(v) => Some(Some(v)),
            None => None,
        },
    }
}

fn parse_optional_route(doc: Option<&JsonValue>) -> (r: Option<Option<Route>>)
    ensures
        r.deep_view() == read_optional(doc.deep_view(), |d: Option<JsonView>| read_route(d)),
{
    match doc {
        None => None,
        Some(JsonValue::Null) => Some(None),
        Some(d) => match parse_route(Some(d)) {
            Some(v) => Some(Some(v)),
            None => None,
        },
    }
}

fn parse_optional_tunnel(doc: Option<&JsonValue>) -> (r: Option<Option<TunnelInfo>>)
    ensures
        r.deep_view() == read_optional(doc.deep_view(), |d: Option<JsonView>| read_tunnel(d)),
{
    match doc {
        None => None,
        Some(JsonValue::Null) => Some(None),
        Some(d) => match parse_tunnel(Some(d)) {
            Some(v) => Some(Some(v)),
            None => None,
        },
    }
}

fn parse_optional_stats(doc: Option<&JsonValue>) -> (r: Option<Option<PeerConnStats>>)
    ensures
        r.deep_view() == read_optional(doc.deep_view(), |d: Option<JsonView>| read_stats(d)),
{
    match doc {
        None => None,
        Some(JsonValue::Null) => Some(None),
        Some(d) => match parse_stats(Some(d)) {
            Some(v) => Some(Some(v)),
            None => None,
        },
    }
}

fn parse_optional_peer(doc: Option<&JsonValue>) -> (r: Option<Option<PeerInfo>>)
    ensures
        r.deep_view() == read_optional(doc.deep_view(), |d: Option<JsonView>| read_peer(d)),
{
    match doc {
        None => None,
        Some(JsonValue::Null) => Some(None),
        Some(d) => match parse_peer(Some(d)) {
            Some(v) => Some(Some(v)),
            None => None,
        },
    }
}

fn parse_optional_ip_list(doc: Option<&JsonValue>) -> (r: Option<Option<GetIpListResponse>>)
    ensures
        r.deep_view() == read_optional(doc.deep_view(), |d: Option<JsonView>| read_ip_list(d)),
{
    match doc {
        None => None,
        Some(JsonValue::Null) => Some(None),
        Some(d) => match parse_ip_list(Some(d)) {
            Some(v) => Some(Some(v)),
            None => None,
        },
    }
}

fn parse_optional_node(doc: Option<&JsonValue>) -> (r: Option<Option<MyNodeInfo>>)
    ensures
        r.deep_view() == read_optional(doc.deep_view(), |d: Option<JsonView>| read_node(d)),
{
    match doc {
        None => None,
        Some(JsonValue::Null) => Some(None),
        Some(d) => match parse_node(Some(d)) {
            Some(v) => Some(Some(v)),
            None => None,
        },
    }
}

fn parse_text_list(doc: Option<&JsonValue>) -> (r: Option<Vec<String>>)
    ensures
        r.deep_view() == read_texts(doc.deep_view()),
{
    match doc {
        Some(JsonValue::Array(items)) => {
            let ghost docs = items_of(*items);
            proof {
                lemma_array_view(*items);
            }
            let mut out: Vec<String> = Vec::new();
            let mut i: usize = 0;
            while i < items.len()
                invariant
                    i <= items.len(),
                    out.len() == i,
                    docs == items_of(*items),
                    doc.deep_view() == Some(JsonView::Array(docs)),
                    docs.len() == items.len(),
                    forall|j: int|
                        0 <= j < items.len() ==> #[trigger] docs[j] == items@[j].deep_view(),
                    forall|j: int|
                        0 <= j < i ==> read_text(Some(#[trigger] docs[j])) == Some(
                            out@[j].deep_view(),
                        ),
                decreases items.len() - i,
            {
                match parse_text(Some(&items[i])) {
                    Some(v) => {
                        out.push(v);
                    },
                    None => {
                        proof {
                            let read = |d: Option<JsonView>| read_text(d);
                            assert(read(Some(docs[i as int])) is None);
                        }
                        return None;
                    },
                }
                i += 1;
            }
            Some(out)
        },
        _ => None,
    }
}

fn parse_ipv4_list(doc: Option<&JsonValue>) -> (r: Option<Vec<Ipv4Addr>>)
    ensures
        r.deep_view() == read_list(doc.deep_view(), |d: Option<JsonView>| read_ipv4(d)),
{
    match doc {
        Some(JsonValue::Array(items)) => {
            let ghost docs = items_of(*items);
            proof {
                lemma_array_view(*items);
            }
            let mut out: Vec<Ipv4Addr> = Vec::new();
            let mut i: usize = 0;
            while i < items.len()
                invariant
                    i <= items.len(),
                    out.len() == i,
                    docs == items_of(*items),
                    doc.deep_view() == Some(JsonView::Array(docs)),
                    docs.len() == items.len(),
                    forall|j: int|
                        0 <= j < items.len() ==> #[trigger] docs[j] == items@[j].deep_view(),
                    forall|j: int|
                        0 <= j < i ==> read_ipv4(Some(#[trigger] docs[j])) == Some(
                            out@[j].deep_view(),
                        ),
                decreases items.len() - i,
            {
                match parse_ipv4(Some(&items[i])) {
                    Some(v) => {
                        out.push(v);
                    },
                    None => {
                        proof {
                            let read = |d: Option<JsonView>| read_ipv4(d);
                            assert(read(Some(docs[i as int])) is None);
                        }
                        return None;
                    },
                }
                i += 1;
            }
            Some(out)
        },
        _ => None,
    }
}

fn parse_ipv6_list(doc: Option<&JsonValue>) -> (r: Option<Vec<Ipv6Addr>>)
    ensures
        r.deep_view() == read_list(doc.deep_view(), |d: Option<JsonView>| read_ipv6(d)),
{
    match doc {
        Some(JsonValue::Array(items)) => {
            let ghost docs = items_of(*items);
            proof {
                lemma_array_view(*items);
            }
            let mut out: Vec<Ipv6Addr> = Vec::new();
            let mut i: usize = 0;
            while i < items.len()
                invariant
                    i <= items.len(),
                    out.len() == i,
                    docs == items_of(*items),
                    doc.deep_view() == Some(JsonView::Array(docs)),
                    docs.len() == items.len(),
                    forall|j: int|
                        0 <= j < items.len() ==> #[trigger] docs[j] == items@[j].deep_view(),
                    forall|j: int|
                        0 <= j < i ==> read_ipv6(Some(#[trigger] docs[j])) == Some(
                            out@[j].deep_view(),
                        ),
                decreases items.len() - i,
            {
                match parse_ipv6(Some(&items[i])) {
                    Some(v) => {
                        out.push(v);
                    },
                    None => {
                        proof {
                            let read = |d: Option<JsonView>| read_ipv6(d);
                            assert(read(Some(docs[i as int])) is None);
                        }
                        return None;
                    },
                }
                i += 1;
            }
            Some(out)
        },
        _ => None,
    }
}

fn parse_url_list(doc: Option<&JsonValue>) -> (r: Option<Vec<Url>>)
    ensures
        r.deep_view() == read_urls(doc.deep_view()),
{
    match doc {
        Some(JsonValue::Array(items)) => {
            let ghost docs = items_of(*items);
            proof {
                lemma_array_view(*items);
            }
            let mut out: Vec<Url> = Vec::new();
            let mut i: usize = 0;
            while i < items.len()
                invariant
                    i <= items.len(),
                    out.len() == i,
                    docs == items_of(*items),
                    doc.deep_view() == Some(JsonView::Array(docs)),
                    docs.len() == items.len(),
                    forall|j: int|
                        0 <= j < items.len() ==> #[trigger] docs[j] == items@[j].deep_view(),
                    forall|j: int|
                        0 <= j < i ==> read_url(Some(#[trigger] docs[j])) == Some(
                            out@[j].deep_view(),
                        ),
                decreases items.len() - i,
            {
                match parse_url(Some(&items[i])) {
                    Some(v) => {
                        out.push(v);
                    },
                    None => {
                        proof {
                            let read = |d: Option<JsonView>| read_url(d);
                            assert(read(Some(docs[i as int])) is None);
                        }
                        return None;
                    },
                }
                i += 1;
            }
            Some(out)
        },
        _ => None,
    }
}

fn parse_route_list(doc: Option<&JsonValue>) -> (r: Option<Vec<Route>>)
    ensures
        r.deep_view() == read_routes(doc.deep_view()),
{
    match doc {
        Some(JsonValue::Array(items)) => {
            let ghost docs = items_of(*items);
            proof {
                lemma_array_view(*items);
            }
            let mut out: Vec<Route> = Vec::new();
            let mut i: usize = 0;
            while i < items.len()
                invariant
                    i <= items.len(),
                    out.len() == i,
                    docs == items_of(*items),
                    doc.deep_view() == Some(JsonView::Array(docs)),
                    docs.len() == items.len(),
                    forall|j: int|
                        0 <= j < items.len() ==> #[trigger] docs[j] == items@[j].deep_view(),
                    forall|j: int|
                        0 <= j < i ==> read_route(Some(#[trigger] docs[j])) == Some(
                            out@[j].deep_view(),
                        ),
                decreases items.len() - i,
            {
                match parse_route(Some(&items[i])) {
                    Some(v) => {
                        out.push(v);
                    },
                    None => {
                        proof {
                            let read = |d: Option<JsonView>| read_route(d);
                            assert(read(Some(docs[i as int])) is None);
                        }
                        return None;
                    },
                }
                i += 1;
            }
            Some(out)
        },
        _ => None,
    }
}

fn parse_conn_list(doc: Option<&JsonValue>) -> (r: Option<Vec<PeerConnInfo>>)
    ensures
        r.deep_view() == read_list(doc.deep_view(), |d: Option<JsonView>| read_conn(d)),
{
    match doc {
        Some(JsonValue::Array(items)) => {
            let ghost docs = items_of(*items);
            proof {
                lemma_array_view(*items);
            }
            let mut out: Vec<PeerConnInfo> = Vec::new();
            let mut i: usize = 0;
            while i < items.len()
                invariant
                    i <= items.len(),
                    out.len() == i,
                    docs == items_of(*items),
                    doc.deep_view() == Some(JsonView::Array(docs)),
                    docs.len() == items.len(),
                    forall|j: int|
                        0 <= j < items.len() ==> #[trigger] docs[j] == items@[j].deep_view(),
                    forall|j: int|
                        0 <= j < i ==> read_conn(Some(#[trigger] docs[j])) == Some(
                            out@[j].deep_view(),
                        ),
                decreases items.len() - i,
            {
                match parse_conn(Some(&items[i])) {
                    Some(v) => {
                        out.push(v);
                    },
                    None => {
                        proof {
                            let read = |d: Option<JsonView>| read_conn(d);
                            assert(read(Some(docs[i as int])) is None);
                        }
                        return None;
                    },
                }
                i += 1;
            }
            Some(out)
        },
        _ => None,
    }
}

fn parse_peer_list(doc: Option<&JsonValue>) -> (r: Option<Vec<PeerInfo>>)
    ensures
        r.deep_view() == read_peers(doc.deep_view()),
{
    match doc {
        Some(JsonValue::Array(items)) => {
            let ghost docs = items_of(*items);
            proof {
                lemma_array_view(*items);
            }
            let mut out: Vec<PeerInfo> = Vec::new();
            let mut i: usize = 0;
            while i < items.len()
                invariant
                    i <= items.len(),
                    out.len() == i,
                    docs == items_of(*items),
                    doc.deep_view() == Some(JsonView::Array(docs)),
                    docs.len() == items.len(),
                    forall|j: int|
                        0 <= j < items.len() ==> #[trigger] docs[j] == items@[j].deep_view(),
                    forall|j: int|
                        0 <= j < i ==> read_peer(Some(#[trigger] docs[j])) == Some(
                            out@[j].deep_view(),
                        ),
                decreases items.len() - i,
            {
                match parse_peer(Some(&items[i])) {
                    Some(v) => {
                        out.push(v);
                    },
                    None => {
                        proof {
                            let read = |d: Option<JsonView>| read_peer(d);
                            assert(read(Some(docs[i as int])) is None);
                        }
                        return None;
                    },
                }
                i += 1;
            }
            Some(out)
        },
        _ => None,
    }
}

fn parse_pair_list(doc: Option<&JsonValue>) -> (r: Option<Vec<PeerRoutePair>>)
    ensures
        r.deep_view() == read_pairs(doc.deep_view()),
{
    match doc {
        Some(JsonValue::Array(items)) => {
            let ghost docs = items_of(*items);
            proof {
                lemma_array_view(*items);
            }
            let mut out: Vec<PeerRoutePair> = Vec::new();
            let mut i: usize = 0;
            while i < items.len()
                invariant
                    i <= items.len(),
                    out.len() == i,
                    docs == items_of(*items),
                    doc.deep_view() == Some(JsonView::Array(docs)),
                    docs.len() == items.len(),
                    forall|j: int|
                        0 <= j < items.len() ==> #[trigger] docs[j] == items@[j].deep_view(),
                    forall|j: int|
                        0 <= j < i ==> read_pair(Some(#[trigger] docs[j])) == Some(
                            out@[j].deep_view(),
                        ),
                decreases items.len() - i,
            {
                match parse_pair(Some(&items[i])) {
                    Some(v) => {
                        out.push(v);
                    },
                    None => {
                        proof {
                            let read = |d: Option<JsonView>| read_pair(d);
                            assert(read(Some(docs[i as int])) is None);
                        }
                        return None;
                    },
                }
                i += 1;
            }
            Some(out)
        },
        _ => None,
    }
}

/// Reads a snapshot back from a document. Returns `None` where a field is
/// missing or holds a value of the wrong kind.
pub fn parse_snapshot(doc: &JsonValue) -> (r: Option<Snapshot>)
    ensures
        r.deep_view() == read_snapshot(doc.deep_view()),
{
    match doc {
        JsonValue::Object(ms) => {
            let dev_name = parse_text(lookup(ms, "dev_name"))?;
            let my_node_info = parse_optional_node(lookup(ms, "my_node_info"))?;
            let events = parse_text_list(lookup(ms, "events"))?;
            let routes = parse_route_list(lookup(ms, "routes"))?;
            let peers = parse_peer_list(lookup(ms, "peers"))?;
            let peer_route_pairs = parse_pair_list(lookup(ms, "peer_route_pairs"))?;
            let running = parse_bool(lookup(ms, "running"))?;
            let error_msg = parse_optional_text(lookup(ms, "error_msg"))?;
            Some(
                Snapshot {
                    dev_name,
                    my_node_info,
                    events,
                    routes,
                    peers,
                    peer_route_pairs,
                    running,
                    error_msg,
                },
            )
        },
        _ => None,
    }
}

} // verus!
