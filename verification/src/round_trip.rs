//! The round trip through the document: what was laid out reads back as it
//! was.

use vstd::prelude::*;
use crate::document::{
    conn_doc, flag_doc, inet_doc, ip_list_doc, ipv4_doc, ipv6_doc, node_doc, optional_inet_doc,
    optional_stun_doc, optional_url_doc, pair_doc, pairs_doc, peer_doc, peers_doc, route_doc,
    routes_doc, snapshot_doc, stats_doc, stun_doc, texts_doc, tunnel_doc, url_doc, urls_doc,
    JsonView,
};
use crate::model::{
    GetIpListResponseView, Ipv4Addr, Ipv4Inet, Ipv6Addr, MyNodeInfoView, PeerConnInfoView,
    PeerConnStats, PeerFeatureFlag, PeerInfoView, PeerRoutePairView, RouteView, SnapshotView,
    StunInfoView, TunnelInfoView, UrlView,
};
use crate::reading::{
    lemma_member_push, member, read_conn, read_flag, read_inet, read_ip_list, read_ipv4,
    read_ipv6, read_list, read_node, read_optional, read_pair, read_pairs, read_peer, read_peers,
    read_route, read_routes, read_snapshot, read_stats, read_stun, read_text, read_texts,
    read_tunnel, read_url, read_urls,
};

verus! {

/// A list reads back as it was written where each item does.
pub proof fn lemma_read_list<T>(
    items: Seq<T>,
    docs: Seq<JsonView>,
    read: spec_fn(Option<JsonView>) -> Option<T>,
)
    requires
        docs.len() == items.len(),
        forall|i: int| 0 <= i < items.len() ==> read(Some(#[trigger] docs[i])) == Some(items[i]),
    ensures
        read_list(Some(JsonView::Array(docs)), read) == Some(items),
{
    assert(Seq::new(docs.len(), |i: int| read(Some(docs[i]))->0) =~= items);
}

pub proof fn lemma_read_texts(items: Seq<Seq<char>>)
    ensures
        read_texts(Some(texts_doc(items))) == Some(items),
{
    lemma_read_list(
        items,
        Seq::new(items.len(), |i: int| JsonView::Text(items[i])),
        |d: Option<JsonView>| read_text(d),
    );
}

/// Every document reads back as the value it was laid out from. The lemmas
/// below state this type by type, for the value itself and, where the value
/// occurs as an optional field, for its presence and its absence.
pub proof fn lemma_read_ipv4(a: Ipv4Addr)
    ensures
        read_ipv4(Some(ipv4_doc(a))) == Some(a),
{
    broadcast use lemma_member_push;

}

pub proof fn lemma_read_inet(inet: Ipv4Inet)
    ensures
        read_inet(Some(inet_doc(inet))) == Some(inet),
{
    broadcast use lemma_member_push;

    reveal_strlit("address");
    reveal_strlit("network_length");
    assert("address"@.len() == 7 && "address"@[0] == 'a');
    assert("network_length"@.len() == 14 && "network_length"@[0] == 'n');
    if inet.address is Some {
        lemma_read_ipv4(inet.address->0);
    }
}

pub proof fn lemma_read_optional_inet(inet: Option<Ipv4Inet>)
    ensures
        read_optional(Some(optional_inet_doc(inet)), |d: Option<JsonView>| read_inet(d)) == Some(
            inet,
        ),
{
    if inet is Some {
        lemma_read_inet(inet->0);
    }
}

pub proof fn lemma_read_ipv6(a: Ipv6Addr)
    ensures
        read_ipv6(Some(ipv6_doc(a))) == Some(a),
{
    broadcast use lemma_member_push;

    reveal_strlit("part1");
    reveal_strlit("part2");
    reveal_strlit("part3");
    reveal_strlit("part4");
    assert("part1"@.len() == 5 && "part1"@[4] == '1');
    assert("part2"@.len() == 5 && "part2"@[4] == '2');
    assert("part3"@.len() == 5 && "part3"@[4] == '3');
    assert("part4"@.len() == 5 && "part4"@[4] == '4');
}

pub proof fn lemma_read_url(u: UrlView)
    ensures
        read_url(Some(url_doc(u))) == Some(u),
{
    broadcast use lemma_member_push;

}

pub proof fn lemma_read_optional_url(u: Option<UrlView>)
    ensures
        read_optional(Some(optional_url_doc(u)), |d: Option<JsonView>| read_url(d)) == Some(u),
{
    if u is Some {
        lemma_read_url(u->0);
    }
}

pub proof fn lemma_read_urls(urls: Seq<UrlView>)
    ensures
        read_urls(Some(urls_doc(urls))) == Some(urls),
{
    let docs = Seq::new(urls.len(), |i: int| url_doc(urls[i]));
    assert forall|i: int| 0 <= i < urls.len() implies read_url(Some(#[trigger] docs[i])) == Some(
        urls[i],
    ) by {
        lemma_read_url(urls[i]);
    }
    lemma_read_list(urls, docs, |d: Option<JsonView>| read_url(d));
}

pub proof fn lemma_read_stun(s: StunInfoView)
    ensures
        read_stun(Some(stun_doc(s))) == Some(s),
{
    broadcast use lemma_member_push;

    reveal_strlit("udp_nat_type");
    reveal_strlit("tcp_nat_type");
    reveal_strlit("last_update_time");
    reveal_strlit("public_ip");
    reveal_strlit("min_port");
    reveal_strlit("max_port");
    assert("udp_nat_type"@.len() == 12 && "udp_nat_type"@[0] == 'u' && "udp_nat_type"@[1] == 'd');
    assert("tcp_nat_type"@.len() == 12 && "tcp_nat_type"@[0] == 't' && "tcp_nat_type"@[1] == 'c');
    assert("last_update_time"@.len() == 16
        && "last_update_time"@[0] == 'l'
        && "last_update_time"@[1] == 'a');
    assert("public_ip"@.len() == 9 && "public_ip"@[0] == 'p' && "public_ip"@[1] == 'u');
    assert("min_port"@.len() == 8 && "min_port"@[0] == 'm' && "min_port"@[1] == 'i');
    assert("max_port"@.len() == 8 && "max_port"@[0] == 'm' && "max_port"@[1] == 'a');
    lemma_read_texts(s.public_ip);
}

pub proof fn lemma_read_optional_stun(s: Option<StunInfoView>)
    ensures
        read_optional(Some(optional_stun_doc(s)), |d: Option<JsonView>| read_stun(d)) == Some(s),
{
    if s is Some {
        lemma_read_stun(s->0);
    }
}

pub proof fn lemma_read_flag(f: PeerFeatureFlag)
    ensures
        read_flag(Some(flag_doc(f))) == Some(f),
{
    broadcast use lemma_member_push;

    reveal_strlit("is_public_server");
    reveal_strlit("avoid_relay_data");
    reveal_strlit("kcp_input");
    reveal_strlit("no_relay_kcp");
    assert("is_public_server"@.len() == 16 && "is_public_server"@[0] == 'i');
    assert("avoid_relay_data"@.len() == 16 && "avoid_relay_data"@[0] == 'a');
    assert("kcp_input"@.len() == 9 && "kcp_input"@[0] == 'k');
    assert("no_relay_kcp"@.len() == 12 && "no_relay_kcp"@[0] == 'n');
}

pub proof fn lemma_read_route(r: RouteView)
    ensures
        read_route(Some(route_doc(r))) == Some(r),
{
    broadcast use lemma_member_push;

    reveal_strlit("peer_id");
    reveal_strlit("ipv4_addr");
    reveal_strlit("next_hop_peer_id");
    reveal_strlit("cost");
    reveal_strlit("path_latency");
    reveal_strlit("proxy_cidrs");
    reveal_strlit("hostname");
    reveal_strlit("stun_info");
    reveal_strlit("inst_id");
    reveal_strlit("version");
    reveal_strlit("feature_flag");
    reveal_strlit("next_hop_peer_id_latency_first");
    reveal_strlit("cost_latency_first");
    reveal_strlit("path_latency_latency_first");
    assert("peer_id"@.len() == 7 && "peer_id"@[0] == 'p');
    assert("ipv4_addr"@.len() == 9 && "ipv4_addr"@[0] == 'i');
    assert("next_hop_peer_id"@.len() == 16 && "next_hop_peer_id"@[0] == 'n');
    assert("cost"@.len() == 4 && "cost"@[0] == 'c');
    assert("path_latency"@.len() == 12 && "path_latency"@[0] == 'p');
    assert("proxy_cidrs"@.len() == 11 && "proxy_cidrs"@[0] == 'p');
    assert("hostname"@.len() == 8 && "hostname"@[0] == 'h');
    assert("stun_info"@.len() == 9 && "stun_info"@[0] == 's');
    assert("inst_id"@.len() == 7 && "inst_id"@[0] == 'i');
    assert("version"@.len() == 7 && "version"@[0] == 'v');
    assert("feature_flag"@.len() == 12 && "feature_flag"@[0] == 'f');
    assert("next_hop_peer_id_latency_first"@.len() == 30
        && "next_hop_peer_id_latency_first"@[0] == 'n');
    assert("cost_latency_first"@.len() == 18 && "cost_latency_first"@[0] == 'c');
    assert("path_latency_latency_first"@.len() == 26 && "path_latency_latency_first"@[0] == 'p');
    lemma_read_optional_inet(r.ipv4_addr);
    lemma_read_texts(r.proxy_cidrs);
    lemma_read_optional_stun(r.stun_info);
    if r.feature_flag is Some {
        lemma_read_flag(r.feature_flag->0);
    }
}

pub proof fn lemma_read_routes(routes: Seq<RouteView>)
    ensures
        read_routes(Some(routes_doc(routes))) == Some(routes),
{
    let docs = Seq::new(routes.len(), |i: int| route_doc(routes[i]));
    assert forall|i: int| 0 <= i < routes.len() implies read_route(Some(#[trigger] docs[i]))
        == Some(routes[i]) by {
        lemma_read_route(routes[i]);
    }
    lemma_read_list(routes, docs, |d: Option<JsonView>| read_route(d));
}

pub proof fn lemma_read_tunnel(t: TunnelInfoView)
    ensures
        read_tunnel(Some(tunnel_doc(t))) == Some(t),
{
    broadcast use lemma_member_push;

    reveal_strlit("tunnel_type");
    reveal_strlit("local_addr");
    reveal_strlit("remote_addr");
    assert("tunnel_type"@.len() == 11 && "tunnel_type"@[0] == 't');
    assert("local_addr"@.len() == 10 && "local_addr"@[0] == 'l');
    assert("remote_addr"@.len() == 11 && "remote_addr"@[0] == 'r');
    lemma_read_optional_url(t.local_addr);
    lemma_read_optional_url(t.remote_addr);
}

pub proof fn lemma_read_stats(s: PeerConnStats)
    ensures
        read_stats(Some(stats_doc(s))) == Some(s),
{
    broadcast use lemma_member_push;

    reveal_strlit("rx_bytes");
    reveal_strlit("tx_bytes");
    reveal_strlit("rx_packets");
    reveal_strlit("tx_packets");
    reveal_strlit("latency_us");
    assert("rx_bytes"@.len() == 8 && "rx_bytes"@[0] == 'r');
    assert("tx_bytes"@.len() == 8 && "tx_bytes"@[0] == 't');
    assert("rx_packets"@.len() == 10 && "rx_packets"@[0] == 'r');
    assert("tx_packets"@.len() == 10 && "tx_packets"@[0] == 't');
    assert("latency_us"@.len() == 10 && "latency_us"@[0] == 'l');
}

pub proof fn lemma_read_conn(c: PeerConnInfoView)
    ensures
        read_conn(Some(conn_doc(c))) == Some(c),
{
    broadcast use lemma_member_push;

    reveal_strlit("conn_id");
    reveal_strlit("my_peer_id");
    reveal_strlit("peer_id");
    reveal_strlit("features");
    reveal_strlit("tunnel");
    reveal_strlit("stats");
    reveal_strlit("loss_rate");
    reveal_strlit("is_client");
    reveal_strlit("network_name");
    assert("conn_id"@.len() == 7 && "conn_id"@[0] == 'c');
    assert("my_peer_id"@.len() == 10 && "my_peer_id"@[0] == 'm');
    assert("peer_id"@.len() == 7 && "peer_id"@[0] == 'p');
    assert("features"@.len() == 8 && "features"@[0] == 'f');
    assert("tunnel"@.len() == 6 && "tunnel"@[0] == 't');
    assert("stats"@.len() == 5 && "stats"@[0] == 's');
    assert("loss_rate"@.len() == 9 && "loss_rate"@[0] == 'l');
    assert("is_client"@.len() == 9 && "is_client"@[0] == 'i');
    assert("network_name"@.len() == 12 && "network_name"@[0] == 'n');
    lemma_read_texts(c.features);
    if c.tunnel is Some {
        lemma_read_tunnel(c.tunnel->0);
    }
    if c.stats is Some {
        lemma_read_stats(c.stats->0);
    }
}

pub proof fn lemma_read_peer(p: PeerInfoView)
    ensures
        read_peer(Some(peer_doc(p))) == Some(p),
{
    broadcast use lemma_member_push;

    reveal_strlit("peer_id");
    reveal_strlit("conns");
    assert("peer_id"@.len() == 7 && "peer_id"@[0] == 'p');
    assert("conns"@.len() == 5 && "conns"@[0] == 'c');
    let docs = Seq::new(p.conns.len(), |i: int| conn_doc(p.conns[i]));
    assert forall|i: int| 0 <= i < p.conns.len() implies read_conn(Some(#[trigger] docs[i]))
        == Some(p.conns[i]) by {
        lemma_read_conn(p.conns[i]);
    }
    lemma_read_list(p.conns, docs, |d: Option<JsonView>| read_conn(d));
}

pub proof fn lemma_read_peers(peers: Seq<PeerInfoView>)
    ensures
        read_peers(Some(peers_doc(peers))) == Some(peers),
{
    let docs = Seq::new(peers.len(), |i: int| peer_doc(peers[i]));
    assert forall|i: int| 0 <= i < peers.len() implies read_peer(Some(#[trigger] docs[i])) == Some(
        peers[i],
    ) by {
        lemma_read_peer(peers[i]);
    }
    lemma_read_list(peers, docs, |d: Option<JsonView>| read_peer(d));
}

pub proof fn lemma_read_pair(p: PeerRoutePairView)
    ensures
        read_pair(Some(pair_doc(p))) == Some(p),
{
    broadcast use lemma_member_push;

    reveal_strlit("route");
    reveal_strlit("peer");
    assert("route"@.len() == 5 && "route"@[0] == 'r');
    assert("peer"@.len() == 4 && "peer"@[0] == 'p');
    if p.route is Some {
        lemma_read_route(p.route->0);
    }
    if p.peer is Some {
        lemma_read_peer(p.peer->0);
    }
}

pub proof fn lemma_read_pairs(pairs: Seq<PeerRoutePairView>)
    ensures
        read_pairs(Some(pairs_doc(pairs))) == Some(pairs),
{
    let docs = Seq::new(pairs.len(), |i: int| pair_doc(pairs[i]));
    assert forall|i: int| 0 <= i < pairs.len() implies read_pair(Some(#[trigger] docs[i])) == Some(
        pairs[i],
    ) by {
        lemma_read_pair(pairs[i]);
    }
    lemma_read_list(pairs, docs, |d: Option<JsonView>| read_pair(d));
}

pub proof fn lemma_read_ip_list(l: GetIpListResponseView)
    ensures
        read_ip_list(Some(ip_list_doc(l))) == Some(l),
{
    broadcast use lemma_member_push;

    reveal_strlit("public_ipv4");
    reveal_strlit("interface_ipv4s");
    reveal_strlit("public_ipv6");
    reveal_strlit("interface_ipv6s");
    reveal_strlit("listeners");
    assert("public_ipv4"@.len() == 11 && "public_ipv4"@[10] == '4');
    assert("interface_ipv4s"@.len() == 15
        && "interface_ipv4s"@[10] == 'i'
        && "interface_ipv4s"@[13] == '4');
    assert("public_ipv6"@.len() == 11 && "public_ipv6"@[10] == '6');
    assert("interface_ipv6s"@.len() == 15
        && "interface_ipv6s"@[10] == 'i'
        && "interface_ipv6s"@[13] == '6');
    assert("listeners"@.len() == 9);
    if l.public_ipv4 is Some {
        lemma_read_ipv4(l.public_ipv4->0);
    }
    if l.public_ipv6 is Some {
        lemma_read_ipv6(l.public_ipv6->0);
    }
    let v4 = Seq::new(l.interface_ipv4s.len(), |i: int| ipv4_doc(l.interface_ipv4s[i]));
    assert forall|i: int| 0 <= i < l.interface_ipv4s.len() implies read_ipv4(
        Some(#[trigger] v4[i]),
    ) == Some(l.interface_ipv4s[i]) by {
        lemma_read_ipv4(l.interface_ipv4s[i]);
    }
    lemma_read_list(l.interface_ipv4s, v4, |d: Option<JsonView>| read_ipv4(d));
    let v6 = Seq::new(l.interface_ipv6s.len(), |i: int| ipv6_doc(l.interface_ipv6s[i]));
    assert forall|i: int| 0 <= i < l.interface_ipv6s.len() implies read_ipv6(
        Some(#[trigger] v6[i]),
    ) == Some(l.interface_ipv6s[i]) by {
        lemma_read_ipv6(l.interface_ipv6s[i]);
    }
    lemma_read_list(l.interface_ipv6s, v6, |d: Option<JsonView>| read_ipv6(d));
    lemma_read_urls(l.listeners);
}

pub proof fn lemma_read_node(n: MyNodeInfoView)
    ensures
        read_node(Some(node_doc(n))) == Some(n),
{
    broadcast use lemma_member_push;

    reveal_strlit("virtual_ipv4");
    reveal_strlit("hostname");
    reveal_strlit("version");
    reveal_strlit("ips");
    reveal_strlit("stun_info");
    reveal_strlit("listeners");
    reveal_strlit("vpn_portal_cfg");
    assert("virtual_ipv4"@.len() == 12 && "virtual_ipv4"@[0] == 'v');
    assert("hostname"@.len() == 8 && "hostname"@[0] == 'h');
    assert("version"@.len() == 7 && "version"@[0] == 'v');
    assert("ips"@.len() == 3 && "ips"@[0] == 'i');
    assert("stun_info"@.len() == 9 && "stun_info"@[0] == 's');
    assert("listeners"@.len() == 9 && "listeners"@[0] == 'l');
    assert("vpn_portal_cfg"@.len() == 14 && "vpn_portal_cfg"@[0] == 'v');
    lemma_read_optional_inet(n.virtual_ipv4);
    if n.ips is Some {
        lemma_read_ip_list(n.ips->0);
    }
    lemma_read_optional_stun(n.stun_info);
    lemma_read_urls(n.listeners);
}

/// Round trip: the document of a snapshot reads back as that snapshot, with
/// every field as it was and every absent optional absent again.
pub proof fn lemma_snapshot_round_trip(s: SnapshotView)
    ensures
        read_snapshot(snapshot_doc(s)) == Some(s),
{
    broadcast use lemma_member_push;

    reveal_strlit("dev_name");
    reveal_strlit("my_node_info");
    reveal_strlit("events");
    reveal_strlit("routes");
    reveal_strlit("peers");
    reveal_strlit("peer_route_pairs");
    reveal_strlit("running");
    reveal_strlit("error_msg");
    assert("dev_name"@.len() == 8 && "dev_name"@[0] == 'd');
    assert("my_node_info"@.len() == 12 && "my_node_info"@[0] == 'm');
    assert("events"@.len() == 6 && "events"@[0] == 'e');
    assert("routes"@.len() == 6 && "routes"@[0] == 'r');
    assert("peers"@.len() == 5 && "peers"@[0] == 'p');
    assert("peer_route_pairs"@.len() == 16 && "peer_route_pairs"@[0] == 'p');
    assert("running"@.len() == 7 && "running"@[0] == 'r');
    assert("error_msg"@.len() == 9 && "error_msg"@[0] == 'e');
    if s.my_node_info is Some {
        lemma_read_node(s.my_node_info->0);
    }
    lemma_read_texts(s.events);
    lemma_read_routes(s.routes);
    lemma_read_peers(s.peers);
    lemma_read_pairs(s.peer_route_pairs);
}

/// Two snapshots with the same document are the same snapshot: the layout
/// loses nothing.
pub proof fn lemma_snapshot_doc_injective(a: SnapshotView, b: SnapshotView)
    requires
        snapshot_doc(a) == snapshot_doc(b),
    ensures
        a == b,
{
    lemma_snapshot_round_trip(a);
    lemma_snapshot_round_trip(b);
}

} // verus!
