//! Pairing of routes with peer records, and the synthetic pair that stands
//! for the local node.

use vstd::prelude::*;
use crate::model::{
    MyNodeInfo, MyNodeInfoView, PeerInfo, PeerInfoView, PeerRoutePair, PeerRoutePairView, Route,
    RouteView, Snapshot, SnapshotView,
};

verus! {

/// Whether the peer owns a connection in which this side is the server.
pub open spec fn has_server_conn(peer: PeerInfoView) -> bool {
    exists|j: int| 0 <= j < peer.conns.len() && !(#[trigger] peer.conns[j]).is_client
}

/// The index of the first peer at or after `from` that owns a server-role
/// connection.
pub open spec fn find_server_peer(peers: Seq<PeerInfoView>, from: int) -> Option<int>
    decreases peers.len() - from,
{
    if from < 0 || from >= peers.len() {
        None
    } else if has_server_conn(peers[from]) {
        Some(from)
    } else {
        find_server_peer(peers, from + 1)
    }
}

/// The identifier taken for the local node: that of the first peer with a
/// server-role connection, and 0 where there is none.
pub open spec fn local_peer_id(peers: Seq<PeerInfoView>) -> u32 {
    match find_server_peer(peers, 0) {
        Some(i) => peers[i].peer_id,
        None => 0,
    }
}

/// The index of the first peer record at or after `from` of peer `id`.
pub open spec fn find_peer(peers: Seq<PeerInfoView>, id: u32, from: int) -> Option<int>
    decreases peers.len() - from,
{
    if from < 0 || from >= peers.len() {
        None
    } else if peers[from].peer_id == id {
        Some(from)
    } else {
        find_peer(peers, id, from + 1)
    }
}

/// The route that stands for the local node `id`: it is its own next hop, at
/// cost 0 and latency 0, and carries the node's address, hostname, version
/// and STUN information.
pub open spec fn local_route(node: MyNodeInfoView, id: u32) -> RouteView {
    RouteView {
        peer_id: id,
        ipv4_addr: node.virtual_ipv4,
        next_hop_peer_id: id,
        cost: 0,
        path_latency: 0,
        proxy_cidrs: Seq::empty(),
        hostname: node.hostname,
        stun_info: node.stun_info,
        inst_id: "local"@,
        version: node.version,
        feature_flag: None,
        next_hop_peer_id_latency_first: None,
        cost_latency_first: None,
        path_latency_latency_first: None,
    }
}

/// The pair that stands for the local node: its route, and the peer record
/// of the same identifier where the snapshot has one.
pub open spec fn local_pair(node: MyNodeInfoView, peers: Seq<PeerInfoView>) -> PeerRoutePairView {
    let id = local_peer_id(peers);
    PeerRoutePairView {
        route: Some(local_route(node, id)),
        peer: match find_peer(peers, id, 0) {
            Some(i) => Some(peers[i]),
            None => None,
        },
    }
}

/// The pairs of a snapshot: those it came with, followed by the local node's
/// where the snapshot knows the local node.
pub open spec fn paired(snapshot: SnapshotView) -> Seq<PeerRoutePairView> {
    match snapshot.my_node_info {
        Some(node) => snapshot.peer_route_pairs.push(local_pair(node, snapshot.peers)),
        None => snapshot.peer_route_pairs,
    }
}

/// Pairing is a function of the snapshot: equal snapshots have equal pairs.
pub proof fn lemma_pairing_is_deterministic(a: SnapshotView, b: SnapshotView)
    requires
        a == b,
    ensures
        paired(a) == paired(b),
{
}

/// Where the snapshot knows the local node, pairing adds exactly one pair, in
/// the last place, and that pair's route is its own next hop.
pub proof fn lemma_local_pair_points_to_itself(snapshot: SnapshotView)
    requires
        snapshot.my_node_info is Some,
    ensures
        paired(snapshot).len() == snapshot.peer_route_pairs.len() + 1,
        paired(snapshot).take(snapshot.peer_route_pairs.len() as int)
            == snapshot.peer_route_pairs,
        paired(snapshot).last().route matches Some(r) && r.next_hop_peer_id == r.peer_id && r.cost
            == 0 && r.path_latency == 0,
{
}

fn owns_server_conn(peer: &PeerInfo) -> (r: bool)
    ensures
        r == has_server_conn(peer.deep_view()),
{
    let mut j: usize = 0;
    while j < peer.conns.len()
        invariant
            j <= peer.conns.len(),
            forall|k: int| 0 <= k < j ==> (#[trigger] peer.deep_view().conns[k]).is_client,
        decreases peer.conns.len() - j,
    {
        assert(peer.deep_view().conns[j as int] == peer.conns[j as int].deep_view());
        if !peer.conns[j].is_client {
            return true;
        }
        j += 1;
    }
    false
}

/// The identifier taken for the local node among `peers`.
pub fn infer_local_peer_id(peers: &Vec<PeerInfo>) -> (id: u32)
    ensures
        id == local_peer_id(peers.deep_view()),
{
    let mut i: usize = 0;
    while i < peers.len()
        invariant
            i <= peers.len(),
            find_server_peer(peers.deep_view(), 0) == find_server_peer(
                peers.deep_view(),
                i as int,
            ),
        decreases peers.len() - i,
    {
        if owns_server_conn(&peers[i]) {
            return peers[i].peer_id;
        }
        i += 1;
    }
    0
}

/// The position of the first record of peer `id`.
pub fn find_peer_index(peers: &Vec<PeerInfo>, id: u32) -> (r: Option<usize>)
    ensures
        match r {
            Some(i) => i < peers.len() && find_peer(peers.deep_view(), id, 0) == Some(i as int),
            None => find_peer(peers.deep_view(), id, 0) is None,
        },
{
    let mut i: usize = 0;
    while i < peers.len()
        invariant
            i <= peers.len(),
            find_peer(peers.deep_view(), id, 0) == find_peer(peers.deep_view(), id, i as int),
        decreases peers.len() - i,
    {
        if peers[i].peer_id == id {
            return Some(i);
        }
        i += 1;
    }
    None
}

/// Builds the pair that stands for the local node.
pub fn local_pair_for(node: &MyNodeInfo, peers: &Vec<PeerInfo>) -> (pair: PeerRoutePair)
    ensures
        pair.deep_view() == local_pair(node.deep_view(), peers.deep_view()),
{
    let id = infer_local_peer_id(peers);
    let proxy_cidrs: Vec<String> = Vec::new();
    assert(proxy_cidrs.deep_view() =~= Seq::<Seq<char>>::empty());
    let route = Route {
        peer_id: id,
        ipv4_addr: node.virtual_ipv4,
        next_hop_peer_id: id,
        cost: 0,
        path_latency: 0,
        proxy_cidrs,
        hostname: node.hostname.clone(),
        stun_info: node.stun_info.clone(),
        inst_id: "local".to_string(),
        version: node.version.clone(),
        feature_flag: None,
        next_hop_peer_id_latency_first: None,
        cost_latency_first: None,
        path_latency_latency_first: None,
    };
    let peer = match find_peer_index(peers, id) {
        Some(i) => {
            Some(peers[i].clone())
        },
        None => None,
    };
    PeerRoutePair { route: Some(route), peer }
}

/// Pairs the routes of a snapshot with its peers: the pairs the snapshot
/// came with, and after them one for the local node where it is known.
pub fn pair(snapshot: &Snapshot) -> (pairs: Vec<PeerRoutePair>)
    ensures
        pairs.deep_view() == paired(snapshot.deep_view()),
{
    let mut pairs = snapshot.peer_route_pairs.clone();
    match &snapshot.my_node_info {
        Some(node) => {
            let own = local_pair_for(node, &snapshot.peers);
            pairs.push(own);
        },
        None => {},
    }
    pairs
}

} // verus!
