//! The snapshot laid out as a document: a tree of objects, arrays and scalars
//! in which every field of the snapshot has its place and every absent
//! optional is an explicit null.

use vstd::prelude::*;
use crate::model::{
    GetIpListResponse, GetIpListResponseView, Ipv4Addr, Ipv4Inet, Ipv6Addr, LossRate, MyNodeInfo,
    MyNodeInfoView, PeerConnInfo, PeerConnInfoView, PeerConnStats, PeerFeatureFlag, PeerInfo,
    PeerInfoView, PeerRoutePair, PeerRoutePairView, Route, RouteView, Snapshot, SnapshotView,
    StunInfo, StunInfoView, TunnelInfo, TunnelInfoView, Url, UrlView,
};

verus! {

/// A node of a document.
///
/// Numbers keep the unit and the width class of their source: unsigned and
/// signed integers are told apart, and a single-precision fraction is carried
/// by its bit pattern. The members of an object are in the order in which
/// they were laid out.
#[derive(Debug, PartialEq, Eq)]
pub enum JsonValue {
    Null,
    Bool(bool),
    Unsigned(u64),
    Signed(i64),
    Fraction(LossRate),
    Text(String),
    Array(Vec<JsonValue>),
    Object(Vec<(String, JsonValue)>),
}

/// The view of a `JsonValue`: its strings and vectors as sequences.
pub enum JsonView {
    Null,
    Bool(bool),
    Unsigned(u64),
    Signed(i64),
    Fraction(LossRate),
    Text(Seq<char>),
    Array(Seq<JsonView>),
    Object(Seq<(Seq<char>, JsonView)>),
}

/// The views of the first `n` items of an array.
pub open spec fn items_view(items: Seq<JsonValue>, n: int) -> Seq<JsonView>
    decreases items, n,
{
    if n <= 0 || n > items.len() {
        Seq::empty()
    } else {
        items_view(items, n - 1).push(tree_view(items[n - 1]))
    }
}

/// The views of the first `n` members of an object.
pub open spec fn members_view(members: Seq<(String, JsonValue)>, n: int) -> Seq<
    (Seq<char>, JsonView),
>
    decreases members, n,
{
    if n <= 0 || n > members.len() {
        Seq::empty()
    } else {
        members_view(members, n - 1).push((members[n - 1].0@, tree_view(members[n - 1].1)))
    }
}

/// The view of a document node.
pub open spec fn tree_view(value: JsonValue) -> JsonView
    decreases value, 0int,
{
    match value {
        JsonValue::Null => JsonView::Null,
        JsonValue::Bool(b) => JsonView::Bool(b),
        JsonValue::Unsigned(n) => JsonView::Unsigned(n),
        JsonValue::Signed(n) => JsonView::Signed(n),
        JsonValue::Fraction(f) => JsonView::Fraction(f),
        JsonValue::Text(s) => JsonView::Text(s@),
        JsonValue::Array(items) => JsonView::Array(items_view(items@, items@.len() as int)),
        JsonValue::Object(members) => JsonView::Object(
            members_view(members@, members@.len() as int),
        ),
    }
}

impl DeepView for JsonValue {
    type V = JsonView;

    open spec fn deep_view(&self) -> JsonView {
        tree_view(*self)
    }
}

proof fn lemma_members_view(members: Seq<(String, JsonValue)>, n: int)
    requires
        0 <= n <= members.len(),
    ensures
        members_view(members, n).len() == n,
        forall|i: int|
            0 <= i < n ==> #[trigger] members_view(members, n)[i] == (
                members[i].0@,
                tree_view(members[i].1),
            ),
    decreases n,
{
    if n > 0 {
        lemma_members_view(members, n - 1);
    }
}

proof fn lemma_items_view(items: Seq<JsonValue>, n: int)
    requires
        0 <= n <= items.len(),
    ensures
        items_view(items, n).len() == n,
        forall|i: int| 0 <= i < n ==> #[trigger] items_view(items, n)[i] == tree_view(items[i]),
    decreases n,
{
    if n > 0 {
        lemma_items_view(items, n - 1);
    }
}

/// The members of an object are the views of its members, one by one.
pub proof fn lemma_object_view(members: Vec<(String, JsonValue)>)
    ensures
        JsonValue::Object(members).deep_view() == JsonView::Object(members_of(members)),
        members_of(members).len() == members@.len(),
        forall|i: int|
            0 <= i < members@.len() ==> #[trigger] members_of(members)[i] == (
                members@[i].0@,
                members@[i].1.deep_view(),
            ),
{
    lemma_members_view(members@, members@.len() as int);
}

/// The items of an array are the views of its items, one by one.
pub proof fn lemma_array_view(items: Vec<JsonValue>)
    ensures
        JsonValue::Array(items).deep_view() == JsonView::Array(items_of(items)),
        items_of(items).len() == items@.len(),
        forall|i: int|
            0 <= i < items@.len() ==> #[trigger] items_of(items)[i] == items@[i].deep_view(),
{
    lemma_items_view(items@, items@.len() as int);
}

/// The members of an object under construction.
pub open spec fn members_of(members: Vec<(String, JsonValue)>) -> Seq<(Seq<char>, JsonView)> {
    members_view(members@, members@.len() as int)
}

/// The items of an array under construction.
pub open spec fn items_of(items: Vec<JsonValue>) -> Seq<JsonView> {
    items_view(items@, items@.len() as int)
}

impl Clone for JsonValue {
    fn clone(&self) -> (r: Self)
        ensures
            r.deep_view() == self.deep_view(),
        decreases self,
    {
        match self {
            JsonValue::Null => JsonValue::Null,
            JsonValue::Bool(b) => JsonValue::Bool(*b),
            JsonValue::Unsigned(n) => JsonValue::Unsigned(*n),
            JsonValue::Signed(n) => JsonValue::Signed(*n),
            JsonValue::Fraction(f) => JsonValue::Fraction(*f),
            JsonValue::Text(s) => JsonValue::Text(s.clone()),
            JsonValue::Array(items) => {
                let mut out: Vec<JsonValue> = Vec::new();
                let mut i: usize = 0;
                while i < items.len()
                    invariant
                        i <= items.len(),
                        out.len() == i,
                        decreases_to!(self => items),
                        forall|j: int| 0 <= j < i ==> out@[j].deep_view() == items@[j].deep_view(),
                    decreases items.len() - i,
                {
                    proof {
                        vstd::std_specs::vec::axiom_vec_index_decreases(*items, i as int);
                    }
                    out.push(items[i].clone());
                    i += 1;
                }
                proof {
                    lemma_array_view(*items);
                    lemma_array_view(out);
                    assert(items_of(out) =~= items_of(*items));
                }
                JsonValue::Array(out)
            },
            JsonValue::Object(members) => {
                let mut out: Vec<(String, JsonValue)> = Vec::new();
                let mut i: usize = 0;
                while i < members.len()
                    invariant
                        i <= members.len(),
                        out.len() == i,
                        decreases_to!(self => members),
                        forall|j: int|
                            0 <= j < i ==> out@[j].0@ == members@[j].0@ && out@[j].1.deep_view()
                                == members@[j].1.deep_view(),
                    decreases members.len() - i,
                {
                    proof {
                        vstd::std_specs::vec::axiom_vec_index_decreases(*members, i as int);
                    }
                    out.push((members[i].0.clone(), members[i].1.clone()));
                    i += 1;
                }
                proof {
                    lemma_object_view(*members);
                    lemma_object_view(out);
                    assert(members_of(out) =~= members_of(*members));
                }
                JsonValue::Object(out)
            },
        }
    }
}

fn start_object() -> (members: Vec<(String, JsonValue)>)
    ensures
        members_of(members) == Seq::<(Seq<char>, JsonView)>::empty(),
{
    Vec::new()
}

fn start_array() -> (items: Vec<JsonValue>)
    ensures
        items_of(items) == Seq::<JsonView>::empty(),
{
    Vec::new()
}

/// Appends a member to the members of an object under construction.
fn put(members: &mut Vec<(String, JsonValue)>, key: &str, value: JsonValue)
    ensures
        members_of(*final(members)) == members_of(*old(members)).push((key@, value.deep_view())),
{
    members.push((key.to_string(), value));
    proof {
        lemma_object_view(*members);
        lemma_object_view(*old(members));
    }
}

/// Appends an item to the items of an array under construction.
fn push_item(items: &mut Vec<JsonValue>, value: JsonValue)
    ensures
        items_of(*final(items)) == items_of(*old(items)).push(value.deep_view()),
{
    items.push(value);
    proof {
        lemma_array_view(*items);
        lemma_array_view(*old(items));
    }
}

fn object(members: Vec<(String, JsonValue)>) -> (doc: JsonValue)
    ensures
        doc.deep_view() == JsonView::Object(members_of(members)),
{
    JsonValue::Object(members)
}

fn array(items: Vec<JsonValue>) -> (doc: JsonValue)
    ensures
        doc.deep_view() == JsonView::Array(items_of(items)),
{
    JsonValue::Array(items)
}

fn text(s: &String) -> (doc: JsonValue)
    ensures
        doc.deep_view() == JsonView::Text(s@),
{
    JsonValue::Text(s.clone())
}

fn unsigned(n: u32) -> (doc: JsonValue)
    ensures
        doc.deep_view() == JsonView::Unsigned(n as u64),
{
    JsonValue::Unsigned(n as u64)
}

fn signed(n: i32) -> (doc: JsonValue)
    ensures
        doc.deep_view() == JsonView::Signed(n as i64),
{
    JsonValue::Signed(n as i64)
}

/// A document for an optional value: the value's own, or null.
pub open spec fn or_null(doc: Option<JsonView>) -> JsonView {
    match doc {
        Some(d) => d,
        None => JsonView::Null,
    }
}

/// An array of strings.
pub open spec fn texts_doc(items: Seq<Seq<char>>) -> JsonView {
    JsonView::Array(Seq::new(items.len(), |i: int| JsonView::Text(items[i])))
}

/// `{ addr }`
pub open spec fn ipv4_doc(a: Ipv4Addr) -> JsonView {
    JsonView::Object(Seq::empty()
        .push(("addr"@, JsonView::Unsigned(a.addr as u64))))
}

/// An optional address, null where absent.
pub open spec fn optional_ipv4_doc(a: Option<Ipv4Addr>) -> JsonView {
    match a {
        Some(v) => ipv4_doc(v),
        None => JsonView::Null,
    }
}

/// An array of addresses.
pub open spec fn ipv4s_doc(list: Seq<Ipv4Addr>) -> JsonView {
    JsonView::Array(Seq::new(list.len(), |i: int| ipv4_doc(list[i])))
}

/// `{ address, network_length }`, the address null where it is not set.
pub open spec fn inet_doc(inet: Ipv4Inet) -> JsonView {
    JsonView::Object(
        Seq::empty()
            .push(( "address"@, optional_ipv4_doc(inet.address)))
            .push(("network_length"@, JsonView::Unsigned(inet.network_length as u64))),
    )
}

/// An optional address with prefix, null where absent.
pub open spec fn optional_inet_doc(inet: Option<Ipv4Inet>) -> JsonView {
    match inet {
        Some(i) => inet_doc(i),
        None => JsonView::Null,
    }
}

/// `{ part1, part2, part3, part4 }`
pub open spec fn ipv6_doc(a: Ipv6Addr) -> JsonView {
    JsonView::Object(
        Seq::empty()
            .push(("part1"@, JsonView::Unsigned(a.part1 as u64)))
            .push(("part2"@, JsonView::Unsigned(a.part2 as u64)))
            .push(("part3"@, JsonView::Unsigned(a.part3 as u64)))
            .push(("part4"@, JsonView::Unsigned(a.part4 as u64))),
    )
}

/// An optional IPv6 address, null where absent.
pub open spec fn optional_ipv6_doc(a: Option<Ipv6Addr>) -> JsonView {
    match a {
        Some(v) => ipv6_doc(v),
        None => JsonView::Null,
    }
}

/// An array of IPv6 addresses.
pub open spec fn ipv6s_doc(list: Seq<Ipv6Addr>) -> JsonView {
    JsonView::Array(Seq::new(list.len(), |i: int| ipv6_doc(list[i])))
}

/// `{ url }`
pub open spec fn url_doc(u: UrlView) -> JsonView {
    JsonView::Object(Seq::empty()
        .push(("url"@, JsonView::Text(u.url))))
}

/// An optional endpoint, null where absent.
pub open spec fn optional_url_doc(u: Option<UrlView>) -> JsonView {
    match u {
        Some(url) => url_doc(url),
        None => JsonView::Null,
    }
}

/// An array of endpoints.
pub open spec fn urls_doc(urls: Seq<UrlView>) -> JsonView {
    JsonView::Array(Seq::new(urls.len(), |i: int| url_doc(urls[i])))
}

/// `{ udp_nat_type, tcp_nat_type, last_update_time, public_ip, min_port, max_port }`
pub open spec fn stun_doc(s: StunInfoView) -> JsonView {
    JsonView::Object(
        Seq::empty()
            .push(("udp_nat_type"@, JsonView::Signed(s.udp_nat_type as i64)))
            .push(("tcp_nat_type"@, JsonView::Signed(s.tcp_nat_type as i64)))
            .push(("last_update_time"@, JsonView::Signed(s.last_update_time)))
            .push(("public_ip"@, texts_doc(s.public_ip)))
            .push(("min_port"@, JsonView::Unsigned(s.min_port as u64)))
            .push(("max_port"@, JsonView::Unsigned(s.max_port as u64))),
    )
}

/// Optional STUN information, null where absent.
pub open spec fn optional_stun_doc(s: Option<StunInfoView>) -> JsonView {
    match s {
        Some(info) => stun_doc(info),
        None => JsonView::Null,
    }
}

/// `{ is_public_server, avoid_relay_data, kcp_input, no_relay_kcp }`
pub open spec fn flag_doc(f: PeerFeatureFlag) -> JsonView {
    JsonView::Object(
        Seq::empty()
            .push(("is_public_server"@, JsonView::Bool(f.is_public_server)))
            .push(("avoid_relay_data"@, JsonView::Bool(f.avoid_relay_data)))
            .push(("kcp_input"@, JsonView::Bool(f.kcp_input)))
            .push(("no_relay_kcp"@, JsonView::Bool(f.no_relay_kcp))),
    )
}

/// Optional feature flags, null where absent.
pub open spec fn optional_flag_doc(f: Option<PeerFeatureFlag>) -> JsonView {
    match f {
        Some(v) => flag_doc(v),
        None => JsonView::Null,
    }
}

/// An optional unsigned number, null where absent.
pub open spec fn optional_unsigned_doc(n: Option<u32>) -> JsonView {
    match n {
        Some(v) => JsonView::Unsigned(v as u64),
        None => JsonView::Null,
    }
}

/// An optional signed number, null where absent.
pub open spec fn optional_signed_doc(n: Option<i32>) -> JsonView {
    match n {
        Some(v) => JsonView::Signed(v as i64),
        None => JsonView::Null,
    }
}

/// An optional string, null where absent.
pub open spec fn optional_text_doc(s: Option<Seq<char>>) -> JsonView {
    match s {
        Some(t) => JsonView::Text(t),
        None => JsonView::Null,
    }
}

/// One row of the routing table, all fourteen fields in their stated order.
pub open spec fn route_doc(r: RouteView) -> JsonView {
    JsonView::Object(
        Seq::empty()
            .push(("peer_id"@, JsonView::Unsigned(r.peer_id as u64)))
            .push(("ipv4_addr"@, optional_inet_doc(r.ipv4_addr)))
            .push(("next_hop_peer_id"@, JsonView::Unsigned(r.next_hop_peer_id as u64)))
            .push(("cost"@, JsonView::Signed(r.cost as i64)))
            .push(("path_latency"@, JsonView::Signed(r.path_latency as i64)))
            .push(("proxy_cidrs"@, texts_doc(r.proxy_cidrs)))
            .push(("hostname"@, JsonView::Text(r.hostname)))
            .push(("stun_info"@, optional_stun_doc(r.stun_info)))
            .push(("inst_id"@, JsonView::Text(r.inst_id)))
            .push(("version"@, JsonView::Text(r.version)))
            .push(( "feature_flag"@, optional_flag_doc(r.feature_flag)))
            .push(
                (
                    "next_hop_peer_id_latency_first"@,
                    optional_unsigned_doc(r.next_hop_peer_id_latency_first),
                ),
            )
            .push(("cost_latency_first"@, optional_signed_doc(r.cost_latency_first)))
            .push(
                (
                    "path_latency_latency_first"@,
                    optional_signed_doc(r.path_latency_latency_first),
                ),
            ),
    )
}

/// An optional route, null where absent.
pub open spec fn optional_route_doc(r: Option<RouteView>) -> JsonView {
    match r {
        Some(v) => route_doc(v),
        None => JsonView::Null,
    }
}

/// An array of routes.
pub open spec fn routes_doc(routes: Seq<RouteView>) -> JsonView {
    JsonView::Array(Seq::new(routes.len(), |i: int| route_doc(routes[i])))
}

/// `{ tunnel_type, local_addr, remote_addr }`
pub open spec fn tunnel_doc(t: TunnelInfoView) -> JsonView {
    JsonView::Object(
        Seq::empty()
            .push(("tunnel_type"@, JsonView::Text(t.tunnel_type)))
            .push(("local_addr"@, optional_url_doc(t.local_addr)))
            .push(("remote_addr"@, optional_url_doc(t.remote_addr))),
    )
}

/// An optional tunnel descriptor, null where absent.
pub open spec fn optional_tunnel_doc(t: Option<TunnelInfoView>) -> JsonView {
    match t {
        Some(v) => tunnel_doc(v),
        None => JsonView::Null,
    }
}

/// `{ rx_bytes, tx_bytes, rx_packets, tx_packets, latency_us }`
pub open spec fn stats_doc(s: PeerConnStats) -> JsonView {
    JsonView::Object(
        Seq::empty()
            .push(("rx_bytes"@, JsonView::Unsigned(s.rx_bytes)))
            .push(("tx_bytes"@, JsonView::Unsigned(s.tx_bytes)))
            .push(("rx_packets"@, JsonView::Unsigned(s.rx_packets)))
            .push(("tx_packets"@, JsonView::Unsigned(s.tx_packets)))
            .push(("latency_us"@, JsonView::Unsigned(s.latency_us))),
    )
}

/// Optional connection statistics, null where absent.
pub open spec fn optional_stats_doc(s: Option<PeerConnStats>) -> JsonView {
    match s {
        Some(v) => stats_doc(v),
        None => JsonView::Null,
    }
}

/// One connection, all nine fields in their stated order.
pub open spec fn conn_doc(c: PeerConnInfoView) -> JsonView {
    JsonView::Object(
        Seq::empty()
            .push(("conn_id"@, JsonView::Text(c.conn_id)))
            .push(("my_peer_id"@, JsonView::Unsigned(c.my_peer_id as u64)))
            .push(("peer_id"@, JsonView::Unsigned(c.peer_id as u64)))
            .push(("features"@, texts_doc(c.features)))
            .push(( "tunnel"@, optional_tunnel_doc(c.tunnel)))
            .push(( "stats"@, optional_stats_doc(c.stats)))
            .push(("loss_rate"@, JsonView::Fraction(c.loss_rate)))
            .push(("is_client"@, JsonView::Bool(c.is_client)))
            .push(("network_name"@, JsonView::Text(c.network_name))),
    )
}

/// An array of connections.
pub open spec fn conns_doc(conns: Seq<PeerConnInfoView>) -> JsonView {
    JsonView::Array(Seq::new(conns.len(), |i: int| conn_doc(conns[i])))
}

/// `{ peer_id, conns }`
pub open spec fn peer_doc(p: PeerInfoView) -> JsonView {
    JsonView::Object(
        Seq::empty()
            .push(("peer_id"@, JsonView::Unsigned(p.peer_id as u64)))
            .push(
                (
                    "conns"@,
                    conns_doc(p.conns),
                ),
            ),
    )
}

/// An optional peer, null where absent.
pub open spec fn optional_peer_doc(p: Option<PeerInfoView>) -> JsonView {
    match p {
        Some(v) => peer_doc(v),
        None => JsonView::Null,
    }
}

/// An array of peers.
pub open spec fn peers_doc(peers: Seq<PeerInfoView>) -> JsonView {
    JsonView::Array(Seq::new(peers.len(), |i: int| peer_doc(peers[i])))
}

/// `{ route, peer }`, each null where absent.
pub open spec fn pair_doc(p: PeerRoutePairView) -> JsonView {
    JsonView::Object(
        Seq::empty()
            .push(( "route"@, optional_route_doc(p.route)))
            .push(( "peer"@, optional_peer_doc(p.peer))),
    )
}

/// An array of pairs.
pub open spec fn pairs_doc(pairs: Seq<PeerRoutePairView>) -> JsonView {
    JsonView::Array(Seq::new(pairs.len(), |i: int| pair_doc(pairs[i])))
}

/// `{ public_ipv4, interface_ipv4s, public_ipv6, interface_ipv6s, listeners }`
pub open spec fn ip_list_doc(l: GetIpListResponseView) -> JsonView {
    JsonView::Object(
        Seq::empty()
            .push(( "public_ipv4"@, optional_ipv4_doc(l.public_ipv4)))
            .push(( "interface_ipv4s"@, ipv4s_doc(l.interface_ipv4s)))
            .push(( "public_ipv6"@, optional_ipv6_doc(l.public_ipv6)))
            .push(( "interface_ipv6s"@, ipv6s_doc(l.interface_ipv6s)))
            .push(("listeners"@, urls_doc(l.listeners))),
    )
}

/// An optional address list, null where absent.
pub open spec fn optional_ip_list_doc(l: Option<GetIpListResponseView>) -> JsonView {
    match l {
        Some(v) => ip_list_doc(v),
        None => JsonView::Null,
    }
}

/// The local node, all seven fields in their stated order.
pub open spec fn node_doc(n: MyNodeInfoView) -> JsonView {
    JsonView::Object(
        Seq::empty()
            .push(("virtual_ipv4"@, optional_inet_doc(n.virtual_ipv4)))
            .push(("hostname"@, JsonView::Text(n.hostname)))
            .push(("version"@, JsonView::Text(n.version)))
            .push(( "ips"@, optional_ip_list_doc(n.ips)))
            .push(("stun_info"@, optional_stun_doc(n.stun_info)))
            .push(("listeners"@, urls_doc(n.listeners)))
            .push(("vpn_portal_cfg"@, optional_text_doc(n.vpn_portal_cfg))),
    )
}

/// The optional local node, null where absent.
pub open spec fn optional_node_doc(n: Option<MyNodeInfoView>) -> JsonView {
    match n {
        Some(v) => node_doc(v),
        None => JsonView::Null,
    }
}

/// The document of a snapshot: its eight fields in their stated order, every
/// absent optional an explicit null.
pub open spec fn snapshot_doc(s: SnapshotView) -> JsonView {
    JsonView::Object(
        Seq::empty()
            .push(("dev_name"@, JsonView::Text(s.dev_name)))
            .push(( "my_node_info"@, optional_node_doc(s.my_node_info)))
            .push(("events"@, texts_doc(s.events)))
            .push(("routes"@, routes_doc(s.routes)))
            .push(("peers"@, peers_doc(s.peers)))
            .push(("peer_route_pairs"@, pairs_doc(s.peer_route_pairs)))
            .push(("running"@, JsonView::Bool(s.running)))
            .push(("error_msg"@, optional_text_doc(s.error_msg))),
    )
}

/// The document shown where there is no snapshot: an object without members.
pub open spec fn empty_doc() -> JsonView {
    JsonView::Object(Seq::empty())
}

fn texts_json(items: &Vec<String>) -> (doc: JsonValue)
    ensures
        doc.deep_view() == texts_doc(items.deep_view()),
{
    let ghost texts = items.deep_view();
    let ghost want = Seq::new(texts.len(), |i: int| JsonView::Text(texts[i]));
    let mut out = start_array();
    let mut i: usize = 0;
    while i < items.len()
        invariant
            i <= items.len(),
            texts == items.deep_view(),
            want == Seq::new(texts.len(), |i: int| JsonView::Text(texts[i])),
            items_of(out) == want.take(i as int),
        decreases items.len() - i,
    {
        push_item(&mut out, text(&items[i]));
        i += 1;
    }
    assert(want.take(i as int) =~= want);
    array(out)
}

fn ipv4_json(a: &Ipv4Addr) -> (doc: JsonValue)
    ensures
        doc.deep_view() == ipv4_doc(*a),
{
    let mut m = start_object();
    put(&mut m, "addr", unsigned(a.addr));
    object(m)
}

fn inet_json(inet: &Ipv4Inet) -> (doc: JsonValue)
    ensures
        doc.deep_view() == inet_doc(*inet),
{
    let mut m = start_object();
    put(
        &mut m,
        "address",
        match &inet.address {
            Some(a) => ipv4_json(a),
            None => JsonValue::Null,
        },
    );
    put(&mut m, "network_length", unsigned(inet.network_length));
    object(m)
}

fn optional_inet_json(inet: &Option<Ipv4Inet>) -> (doc: JsonValue)
    ensures
        doc.deep_view() == optional_inet_doc(*inet),
{
    match inet {
        Some(i) => inet_json(i),
        None => JsonValue::Null,
    }
}

fn ipv6_json(a: &Ipv6Addr) -> (doc: JsonValue)
    ensures
        doc.deep_view() == ipv6_doc(*a),
{
    let mut m = start_object();
    put(&mut m, "part1", unsigned(a.part1));
    put(&mut m, "part2", unsigned(a.part2));
    put(&mut m, "part3", unsigned(a.part3));
    put(&mut m, "part4", unsigned(a.part4));
    object(m)
}

fn url_json(u: &Url) -> (doc: JsonValue)
    ensures
        doc.deep_view() == url_doc(u.deep_view()),
{
    let mut m = start_object();
    put(&mut m, "url", text(&u.url));
    object(m)
}

fn optional_url_json(u: &Option<Url>) -> (doc: JsonValue)
    ensures
        doc.deep_view() == optional_url_doc(u.deep_view()),
{
    match u {
        Some(url) => url_json(url),
        None => JsonValue::Null,
    }
}

fn urls_json(urls: &Vec<Url>) -> (doc: JsonValue)
    ensures
        doc.deep_view() == urls_doc(urls.deep_view()),
{
    let ghost want = Seq::new(urls.deep_view().len(), |i: int| url_doc(urls.deep_view()[i]));
    let mut out = start_array();
    let mut i: usize = 0;
    while i < urls.len()
        invariant
            i <= urls.len(),
            want == Seq::new(urls.deep_view().len(), |i: int| url_doc(urls.deep_view()[i])),
            items_of(out) == want.take(i as int),
        decreases urls.len() - i,
    {
        push_item(&mut out, url_json(&urls[i]));
        i += 1;
    }
    assert(want.take(i as int) =~= want);
    array(out)
}

fn stun_json(s: &StunInfo) -> (doc: JsonValue)
    ensures
        doc.deep_view() == stun_doc(s.deep_view()),
{
    let mut m = start_object();
    put(&mut m, "udp_nat_type", signed(s.udp_nat_type));
    put(&mut m, "tcp_nat_type", signed(s.tcp_nat_type));
    put(&mut m, "last_update_time", JsonValue::Signed(s.last_update_time));
    put(&mut m, "public_ip", texts_json(&s.public_ip));
    put(&mut m, "min_port", unsigned(s.min_port));
    put(&mut m, "max_port", unsigned(s.max_port));
    object(m)
}

fn optional_stun_json(s: &Option<StunInfo>) -> (doc: JsonValue)
    ensures
        doc.deep_view() == optional_stun_doc(s.deep_view()),
{
    match s {
        Some(info) => stun_json(info),
        None => JsonValue::Null,
    }
}

fn flag_json(f: &PeerFeatureFlag) -> (doc: JsonValue)
    ensures
        doc.deep_view() == flag_doc(*f),
{
    let mut m = start_object();
    put(&mut m, "is_public_server", JsonValue::Bool(f.is_public_server));
    put(&mut m, "avoid_relay_data", JsonValue::Bool(f.avoid_relay_data));
    put(&mut m, "kcp_input", JsonValue::Bool(f.kcp_input));
    put(&mut m, "no_relay_kcp", JsonValue::Bool(f.no_relay_kcp));
    object(m)
}

fn optional_unsigned_json(n: &Option<u32>) -> (doc: JsonValue)
    ensures
        doc.deep_view() == optional_unsigned_doc(*n),
{
    match n {
        Some(v) => unsigned(*v),
        None => JsonValue::Null,
    }
}

fn optional_signed_json(n: &Option<i32>) -> (doc: JsonValue)
    ensures
        doc.deep_view() == optional_signed_doc(*n),
{
    match n {
        Some(v) => signed(*v),
        None => JsonValue::Null,
    }
}

fn optional_text_json(s: &Option<String>) -> (doc: JsonValue)
    ensures
        doc.deep_view() == optional_text_doc(s.deep_view()),
{
    match s {
        Some(t) => text(t),
        None => JsonValue::Null,
    }
}

/// Lays out one row of the routing table.
pub fn route_json(r: &Route) -> (doc: JsonValue)
    ensures
        doc.deep_view() == route_doc(r.deep_view()),
{
    let mut m = start_object();
    put(&mut m, "peer_id", unsigned(r.peer_id));
    put(&mut m, "ipv4_addr", optional_inet_json(&r.ipv4_addr));
    put(&mut m, "next_hop_peer_id", unsigned(r.next_hop_peer_id));
    put(&mut m, "cost", signed(r.cost));
    put(&mut m, "path_latency", signed(r.path_latency));
    put(&mut m, "proxy_cidrs", texts_json(&r.proxy_cidrs));
    put(&mut m, "hostname", text(&r.hostname));
    put(&mut m, "stun_info", optional_stun_json(&r.stun_info));
    put(&mut m, "inst_id", text(&r.inst_id));
    put(&mut m, "version", text(&r.version));
    put(
        &mut m,
        "feature_flag",
        match &r.feature_flag {
            Some(f) => flag_json(f),
            None => JsonValue::Null,
        },
    );
    put(
        &mut m,
        "next_hop_peer_id_latency_first",
        optional_unsigned_json(&r.next_hop_peer_id_latency_first),
    );
    put(&mut m, "cost_latency_first", optional_signed_json(&r.cost_latency_first));
    put(&mut m, "path_latency_latency_first", optional_signed_json(&r.path_latency_latency_first));
    object(m)
}

fn routes_json(routes: &Vec<Route>) -> (doc: JsonValue)
    ensures
        doc.deep_view() == routes_doc(routes.deep_view()),
{
    let ghost want = Seq::new(routes.deep_view().len(), |i: int| route_doc(routes.deep_view()[i]));
    let mut out = start_array();
    let mut i: usize = 0;
    while i < routes.len()
        invariant
            i <= routes.len(),
            want == Seq::new(routes.deep_view().len(), |i: int| route_doc(routes.deep_view()[i])),
            items_of(out) == want.take(i as int),
        decreases routes.len() - i,
    {
        push_item(&mut out, route_json(&routes[i]));
        i += 1;
    }
    assert(want.take(i as int) =~= want);
    array(out)
}

fn tunnel_json(t: &TunnelInfo) -> (doc: JsonValue)
    ensures
        doc.deep_view() == tunnel_doc(t.deep_view()),
{
    let mut m = start_object();
    put(&mut m, "tunnel_type", text(&t.tunnel_type));
    put(&mut m, "local_addr", optional_url_json(&t.local_addr));
    put(&mut m, "remote_addr", optional_url_json(&t.remote_addr));
    object(m)
}

fn stats_json(s: &PeerConnStats) -> (doc: JsonValue)
    ensures
        doc.deep_view() == stats_doc(*s),
{
    let mut m = start_object();
    put(&mut m, "rx_bytes", JsonValue::Unsigned(s.rx_bytes));
    put(&mut m, "tx_bytes", JsonValue::Unsigned(s.tx_bytes));
    put(&mut m, "rx_packets", JsonValue::Unsigned(s.rx_packets));
    put(&mut m, "tx_packets", JsonValue::Unsigned(s.tx_packets));
    put(&mut m, "latency_us", JsonValue::Unsigned(s.latency_us));
    object(m)
}

/// Lays out one connection.
pub fn conn_json(c: &PeerConnInfo) -> (doc: JsonValue)
    ensures
        doc.deep_view() == conn_doc(c.deep_view()),
{
    let mut m = start_object();
    put(&mut m, "conn_id", text(&c.conn_id));
    put(&mut m, "my_peer_id", unsigned(c.my_peer_id));
    put(&mut m, "peer_id", unsigned(c.peer_id));
    put(&mut m, "features", texts_json(&c.features));
    put(
        &mut m,
        "tunnel",
        match &c.tunnel {
            Some(t) => tunnel_json(t),
            None => JsonValue::Null,
        },
    );
    put(
        &mut m,
        "stats",
        match &c.stats {
            Some(s) => stats_json(s),
            None => JsonValue::Null,
        },
    );
    put(&mut m, "loss_rate", JsonValue::Fraction(c.loss_rate));
    put(&mut m, "is_client", JsonValue::Bool(c.is_client));
    put(&mut m, "network_name", text(&c.network_name));
    object(m)
}

/// Lays out one peer with its connections.
pub fn peer_json(p: &PeerInfo) -> (doc: JsonValue)
    ensures
        doc.deep_view() == peer_doc(p.deep_view()),
{
    let ghost conns = p.deep_view().conns;
    let ghost want = Seq::new(conns.len(), |i: int| conn_doc(conns[i]));
    let mut out = start_array();
    let mut i: usize = 0;
    while i < p.conns.len()
        invariant
            i <= p.conns.len(),
            conns == p.deep_view().conns,
            want == Seq::new(conns.len(), |i: int| conn_doc(conns[i])),
            items_of(out) == want.take(i as int),
        decreases p.conns.len() - i,
    {
        push_item(&mut out, conn_json(&p.conns[i]));
        i += 1;
    }
    assert(want.take(i as int) =~= want);
    let mut m = start_object();
    put(&mut m, "peer_id", unsigned(p.peer_id));
    put(&mut m, "conns", array(out));
    object(m)
}

fn peers_json(peers: &Vec<PeerInfo>) -> (doc: JsonValue)
    ensures
        doc.deep_view() == peers_doc(peers.deep_view()),
{
    let ghost want = Seq::new(peers.deep_view().len(), |i: int| peer_doc(peers.deep_view()[i]));
    let mut out = start_array();
    let mut i: usize = 0;
    while i < peers.len()
        invariant
            i <= peers.len(),
            want == Seq::new(peers.deep_view().len(), |i: int| peer_doc(peers.deep_view()[i])),
            items_of(out) == want.take(i as int),
        decreases peers.len() - i,
    {
        push_item(&mut out, peer_json(&peers[i]));
        i += 1;
    }
    assert(want.take(i as int) =~= want);
    array(out)
}

/// Lays out one pair.
pub fn pair_json(p: &PeerRoutePair) -> (doc: JsonValue)
    ensures
        doc.deep_view() == pair_doc(p.deep_view()),
{
    let mut m = start_object();
    put(
        &mut m,
        "route",
        match &p.route {
            Some(r) => route_json(r),
            None => JsonValue::Null,
        },
    );
    put(
        &mut m,
        "peer",
        match &p.peer {
            Some(peer) => peer_json(peer),
            None => JsonValue::Null,
        },
    );
    object(m)
}

fn pairs_json(pairs: &Vec<PeerRoutePair>) -> (doc: JsonValue)
    ensures
        doc.deep_view() == pairs_doc(pairs.deep_view()),
{
    let ghost want = Seq::new(pairs.deep_view().len(), |i: int| pair_doc(pairs.deep_view()[i]));
    let mut out = start_array();
    let mut i: usize = 0;
    while i < pairs.len()
        invariant
            i <= pairs.len(),
            want == Seq::new(pairs.deep_view().len(), |i: int| pair_doc(pairs.deep_view()[i])),
            items_of(out) == want.take(i as int),
        decreases pairs.len() - i,
    {
        push_item(&mut out, pair_json(&pairs[i]));
        i += 1;
    }
    assert(want.take(i as int) =~= want);
    array(out)
}

fn ipv4s_json(list: &Vec<Ipv4Addr>) -> (doc: JsonValue)
    ensures
        doc.deep_view() == JsonView::Array(Seq::new(list@.len(), |i: int| ipv4_doc(list@[i]))),
{
    let ghost want = Seq::new(list@.len(), |i: int| ipv4_doc(list@[i]));
    let mut out = start_array();
    let mut i: usize = 0;
    while i < list.len()
        invariant
            i <= list.len(),
            want == Seq::new(list@.len(), |i: int| ipv4_doc(list@[i])),
            items_of(out) == want.take(i as int),
        decreases list.len() - i,
    {
        push_item(&mut out, ipv4_json(&list[i]));
        i += 1;
    }
    assert(want.take(i as int) =~= want);
    array(out)
}

fn ipv6s_json(list: &Vec<Ipv6Addr>) -> (doc: JsonValue)
    ensures
        doc.deep_view() == JsonView::Array(Seq::new(list@.len(), |i: int| ipv6_doc(list@[i]))),
{
    let ghost want = Seq::new(list@.len(), |i: int| ipv6_doc(list@[i]));
    let mut out = start_array();
    let mut i: usize = 0;
    while i < list.len()
        invariant
            i <= list.len(),
            want == Seq::new(list@.len(), |i: int| ipv6_doc(list@[i])),
            items_of(out) == want.take(i as int),
        decreases list.len() - i,
    {
        push_item(&mut out, ipv6_json(&list[i]));
        i += 1;
    }
    assert(want.take(i as int) =~= want);
    array(out)
}

fn ip_list_json(l: &GetIpListResponse) -> (doc: JsonValue)
    ensures
        doc.deep_view() == ip_list_doc(l.deep_view()),
{
    let mut m = start_object();
    put(
        &mut m,
        "public_ipv4",
        match &l.public_ipv4 {
            Some(a) => ipv4_json(a),
            None => JsonValue::Null,
        },
    );
    put(&mut m, "interface_ipv4s", ipv4s_json(&l.interface_ipv4s));
    put(
        &mut m,
        "public_ipv6",
        match &l.public_ipv6 {
            Some(a) => ipv6_json(a),
            None => JsonValue::Null,
        },
    );
    put(&mut m, "interface_ipv6s", ipv6s_json(&l.interface_ipv6s));
    put(&mut m, "listeners", urls_json(&l.listeners));
    object(m)
}

/// Lays out the local node.
pub fn node_json(n: &MyNodeInfo) -> (doc: JsonValue)
    ensures
        doc.deep_view() == node_doc(n.deep_view()),
{
    let mut m = start_object();
    put(&mut m, "virtual_ipv4", optional_inet_json(&n.virtual_ipv4));
    put(&mut m, "hostname", text(&n.hostname));
    put(&mut m, "version", text(&n.version));
    put(
        &mut m,
        "ips",
        match &n.ips {
            Some(l) => ip_list_json(l),
            None => JsonValue::Null,
        },
    );
    put(&mut m, "stun_info", optional_stun_json(&n.stun_info));
    put(&mut m, "listeners", urls_json(&n.listeners));
    put(&mut m, "vpn_portal_cfg", optional_text_json(&n.vpn_portal_cfg));
    object(m)
}

/// Lays out a snapshot as a document.
pub fn snapshot_document(s: &Snapshot) -> (doc: JsonValue)
    ensures
        doc.deep_view() == snapshot_doc(s.deep_view()),
{
    let mut m = start_object();
    put(&mut m, "dev_name", text(&s.dev_name));
    put(
        &mut m,
        "my_node_info",
        match &s.my_node_info {
            Some(n) => node_json(n),
            None => JsonValue::Null,
        },
    );
    put(&mut m, "events", texts_json(&s.events));
    put(&mut m, "routes", routes_json(&s.routes));
    put(&mut m, "peers", peers_json(&s.peers));
    put(&mut m, "peer_route_pairs", pairs_json(&s.peer_route_pairs));
    put(&mut m, "running", JsonValue::Bool(s.running));
    put(&mut m, "error_msg", optional_text_json(&s.error_msg));
    object(m)
}

/// The document shown where there is no snapshot.
pub fn empty_document() -> (doc: JsonValue)
    ensures
        doc.deep_view() == empty_doc(),
{
    object(start_object())
}

} // verus!
