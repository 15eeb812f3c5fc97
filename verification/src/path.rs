//! Reconstruction of the hop path from the local node to a destination, by
//! following next-hop pointers through the paired routes.
//!
//! The routing table is not trusted: it may hold cycles, self-references and
//! next hops that name no known peer. The walk keeps a set of the peers it
//! has been at and stops when it would come to one of them again, so it
//! always ends and never lists a peer twice.

use std::collections::HashSet;
use vstd::prelude::*;
use crate::metrics::{
    hop_latency, hop_latency_us, mean_loss, mean_loss_rate, no_loss, LossRollup, LossRollupView,
};
use crate::model::{
    Ipv4Inet, MyNodeInfo, MyNodeInfoView, PeerInfo, PeerInfoView, PeerRoutePair,
    PeerRoutePairView, Route, RouteView,
};
use crate::text::{dotted_quad, ipv4_text};

verus! {

/// One step of a reconstructed path. The latency is in microseconds; the
/// packet loss is the rollup that yields the hop's loss fraction.
#[derive(Debug, PartialEq, Eq)]
pub struct NodeHopStats {
    pub target_ip: String,
    pub latency_us: u64,
    pub packet_loss: LossRollup,
    pub node_name: String,
}

/// The view of a `NodeHopStats`: its strings and vectors as sequences.
pub struct NodeHopStatsView {
    pub target_ip: Seq<char>,
    pub latency_us: u64,
    pub packet_loss: LossRollupView,
    pub node_name: Seq<char>,
}

impl DeepView for NodeHopStats {
    type V = NodeHopStatsView;

    open spec fn deep_view(&self) -> NodeHopStatsView {
        NodeHopStatsView {
            target_ip: self.target_ip@,
            latency_us: self.latency_us,
            packet_loss: self.packet_loss.deep_view(),
            node_name: self.node_name@,
        }
    }
}

impl Clone for NodeHopStats {
    fn clone(&self) -> (r: Self)
        ensures
            r.deep_view() == self.deep_view(),
    {
        NodeHopStats {
            target_ip: self.target_ip.clone(),
            latency_us: self.latency_us,
            packet_loss: self.packet_loss.clone(),
            node_name: self.node_name.clone(),
        }
    }
}

/// The address inside an optional address-with-prefix, where one is set.
pub open spec fn inet_address(inet: Option<Ipv4Inet>) -> Option<u32> {
    match inet {
        Some(i) => match i.address {
            Some(a) => Some(a.addr),
            None => None,
        },
        None => None,
    }
}

/// The hop that stands for a remote node: its address in dotted-quad form
/// (empty where the route has none), its hostname, the smallest latency and
/// the mean loss of its peer's connections.
pub open spec fn hop_of(route: RouteView, peer: Option<PeerInfoView>) -> NodeHopStatsView {
    NodeHopStatsView {
        target_ip: match inet_address(route.ipv4_addr) {
            Some(a) => dotted_quad(a),
            None => Seq::empty(),
        },
        latency_us: hop_latency(peer),
        packet_loss: mean_loss(peer),
        node_name: route.hostname,
    }
}

/// The hop of a pair that has a route.
pub open spec fn pair_hop(pair: PeerRoutePairView) -> NodeHopStatsView {
    hop_of(pair.route->0, pair.peer)
}

/// The hop that stands for the local node: no latency, no loss, and the
/// hostname in place of an address that is not set.
pub open spec fn local_hop(node: MyNodeInfoView) -> NodeHopStatsView {
    NodeHopStatsView {
        target_ip: match inet_address(node.virtual_ipv4) {
            Some(a) => dotted_quad(a),
            None => node.hostname,
        },
        latency_us: 0,
        packet_loss: no_loss(),
        node_name: node.hostname,
    }
}

/// Whether the pair carries the route of peer `id`.
pub open spec fn pair_has_id(pair: PeerRoutePairView, id: u32) -> bool {
    pair.route matches Some(r) && r.peer_id == id
}

/// The index of the first pair at or after `from` that carries the route of
/// peer `id`.
pub open spec fn find_pair(pairs: Seq<PeerRoutePairView>, id: u32, from: int) -> Option<int>
    decreases pairs.len() - from,
{
    if from < 0 || from >= pairs.len() {
        None
    } else if pair_has_id(pairs[from], id) {
        Some(from)
    } else {
        find_pair(pairs, id, from + 1)
    }
}

/// The index of the first route at or after `from` that leads to peer `id`.
pub open spec fn find_route(routes: Seq<RouteView>, id: u32, from: int) -> Option<int>
    decreases routes.len() - from,
{
    if from < 0 || from >= routes.len() {
        None
    } else if routes[from].peer_id == id {
        Some(from)
    } else {
        find_route(routes, id, from + 1)
    }
}

/// The peers that the pairs hold a route for.
pub open spec fn route_ids(pairs: Seq<PeerRoutePairView>) -> Set<u32>
    decreases pairs.len(),
{
    if pairs.len() == 0 {
        Set::empty()
    } else {
        let rest = route_ids(pairs.drop_last());
        match pairs.last().route {
            Some(r) => rest.insert(r.peer_id),
            None => rest,
        }
    }
}

/// How many peers with a route the walk has not been at yet.
pub open spec fn unvisited(pairs: Seq<PeerRoutePairView>, seen: Set<u32>) -> nat {
    route_ids(pairs).difference(seen).len()
}

/// What a walk leaves behind: the indices of the pairs it emitted a hop for,
/// in order, and the peers it has been at.
pub struct Trail {
    pub steps: Seq<int>,
    pub seen: Set<u32>,
}

/// The walk from peer `current` with the peers in `seen` already visited.
///
/// It stops without a hop at a peer it has been at, and at one that no pair
/// has a route for; otherwise it emits the hop of the first pair with that
/// route and goes on to the route's next hop, unless that is the peer itself
/// or 0.
pub open spec fn follow(pairs: Seq<PeerRoutePairView>, current: u32, seen: Set<u32>) -> Trail
    decreases unvisited(pairs, seen),
    via follow_decreases
{
    if seen.contains(current) {
        Trail { steps: Seq::empty(), seen }
    } else {
        match find_pair(pairs, current, 0) {
            None => Trail { steps: Seq::empty(), seen: seen.insert(current) },
            Some(i) => {
                let next = pairs[i].route->0.next_hop_peer_id;
                if next != current && next != 0 {
                    let rest = follow(pairs, next, seen.insert(current));
                    Trail { steps: seq![i] + rest.steps, seen: rest.seen }
                } else {
                    Trail { steps: seq![i], seen: seen.insert(current) }
                }
            },
        }
    }
}

#[via_fn]
proof fn follow_decreases(pairs: Seq<PeerRoutePairView>, current: u32, seen: Set<u32>) {
    if !seen.contains(current) && find_pair(pairs, current, 0) is Some {
        lemma_unvisited_decreases(pairs, current, seen);
    }
}

/// The hops of the pairs at the given indices.
pub open spec fn trail_hops(pairs: Seq<PeerRoutePairView>, steps: Seq<int>) -> Seq<
    NodeHopStatsView,
> {
    Seq::new(steps.len(), |k: int| pair_hop(pairs[steps[k]]))
}

/// The path as the walk leaves it: the local node, the hops of the walk that
/// starts at the next hop the routing table gives for the destination, and
/// the destination itself where the walk neither ended on its hostname nor
/// was ever at it.
pub open spec fn walked_path(
    pairs: Seq<PeerRoutePairView>,
    local: MyNodeInfoView,
    routes: Seq<RouteView>,
    target: RouteView,
    peer: Option<PeerInfoView>,
) -> Seq<NodeHopStatsView> {
    let head = seq![local_hop(local)];
    match find_route(routes, target.peer_id, 0) {
        None => head,
        Some(k) => {
            let trail = follow(pairs, routes[k].next_hop_peer_id, Set::empty());
            let hops = head + trail_hops(pairs, trail.steps);
            if hops.last().node_name != target.hostname && !trail.seen.contains(target.peer_id) {
                hops.push(hop_of(target, peer))
            } else {
                hops
            }
        },
    }
}

/// The hop path from the local node to the destination `target`: the walked
/// path, closed with the destination where the walk produced no hop.
pub open spec fn path(
    pairs: Seq<PeerRoutePairView>,
    local: MyNodeInfoView,
    routes: Seq<RouteView>,
    target: RouteView,
    peer: Option<PeerInfoView>,
) -> Seq<NodeHopStatsView> {
    let walked = walked_path(pairs, local, routes, target, peer);
    if walked.len() <= 1 {
        walked.push(hop_of(target, peer))
    } else {
        walked
    }
}

/// The number of distinct peers in play: those the pairs have a route for,
/// and the destination.
pub open spec fn distinct_peers(pairs: Seq<PeerRoutePairView>, target: u32) -> nat {
    route_ids(pairs).insert(target).len()
}

/// `find_pair` returns the first match at or after `from`, and `None` only
/// where there is none.
pub proof fn lemma_find_pair(pairs: Seq<PeerRoutePairView>, id: u32, from: int)
    requires
        0 <= from,
    ensures
        find_pair(pairs, id, from) matches Some(i) ==> from <= i < pairs.len() && pair_has_id(
            pairs[i],
            id,
        ) && forall|j: int| from <= j < i ==> !pair_has_id(#[trigger] pairs[j], id),
        find_pair(pairs, id, from) is None ==> forall|j: int|
            from <= j < pairs.len() ==> !pair_has_id(#[trigger] pairs[j], id),
    decreases pairs.len() - from,
{
    if from < pairs.len() && !pair_has_id(pairs[from], id) {
        lemma_find_pair(pairs, id, from + 1);
    }
}

/// `find_route` returns the first match at or after `from`, and `None` only
/// where there is none.
pub proof fn lemma_find_route(routes: Seq<RouteView>, id: u32, from: int)
    requires
        0 <= from,
    ensures
        find_route(routes, id, from) matches Some(k) ==> from <= k < routes.len()
            && routes[k].peer_id == id && forall|j: int|
            from <= j < k ==> (#[trigger] routes[j]).peer_id != id,
        find_route(routes, id, from) is None ==> forall|j: int|
            from <= j < routes.len() ==> (#[trigger] routes[j]).peer_id != id,
    decreases routes.len() - from,
{
    if from < routes.len() && routes[from].peer_id != id {
        lemma_find_route(routes, id, from + 1);
    }
}

/// `route_ids` is finite and holds exactly the peers that some pair has a
/// route for.
pub proof fn lemma_route_ids(pairs: Seq<PeerRoutePairView>)
    ensures
        route_ids(pairs).finite(),
        forall|id: u32|
            route_ids(pairs).contains(id) <==> exists|i: int|
                0 <= i < pairs.len() && pair_has_id(#[trigger] pairs[i], id),
    decreases pairs.len(),
{
    if pairs.len() > 0 {
        let init = pairs.drop_last();
        let n = pairs.len() - 1;
        lemma_route_ids(init);
        assert forall|id: u32|
            route_ids(pairs).contains(id) <==> exists|i: int|
                0 <= i < pairs.len() && pair_has_id(#[trigger] pairs[i], id) by {
            if route_ids(pairs).contains(id) {
                if route_ids(init).contains(id) {
                    let i = choose|i: int|
                        0 <= i < init.len() && pair_has_id(#[trigger] init[i], id);
                    assert(pair_has_id(pairs[i], id));
                } else {
                    assert(pair_has_id(pairs[n], id));
                }
            }
            if exists|i: int| 0 <= i < pairs.len() && pair_has_id(#[trigger] pairs[i], id) {
                let i = choose|i: int| 0 <= i < pairs.len() && pair_has_id(#[trigger] pairs[i], id);
                if i < n {
                    assert(pair_has_id(init[i], id));
                }
            }
        }
    }
}

/// A peer is in `route_ids` exactly when `find_pair` finds a pair for it.
pub proof fn lemma_found_iff_known(pairs: Seq<PeerRoutePairView>, id: u32)
    ensures
        route_ids(pairs).contains(id) <==> find_pair(pairs, id, 0) is Some,
{
    lemma_route_ids(pairs);
    lemma_find_pair(pairs, id, 0);
    if find_pair(pairs, id, 0) is Some {
        let i = find_pair(pairs, id, 0)->0;
        assert(pair_has_id(pairs[i], id));
    }
}

/// Visiting a peer that has a route leaves one peer fewer to visit.
pub proof fn lemma_unvisited_decreases(pairs: Seq<PeerRoutePairView>, id: u32, seen: Set<u32>)
    requires
        find_pair(pairs, id, 0) is Some,
        !seen.contains(id),
    ensures
        unvisited(pairs, seen.insert(id)) + 1 == unvisited(pairs, seen),
{
    lemma_route_ids(pairs);
    lemma_found_iff_known(pairs, id);
    let before = route_ids(pairs).difference(seen);
    let after = route_ids(pairs).difference(seen.insert(id));
    assert(after =~= before.remove(id));
}

/// Visiting a peer that has no route leaves the count of peers to visit
/// unchanged.
pub proof fn lemma_unvisited_unchanged(pairs: Seq<PeerRoutePairView>, id: u32, seen: Set<u32>)
    requires
        find_pair(pairs, id, 0) is None,
    ensures
        unvisited(pairs, seen.insert(id)) == unvisited(pairs, seen),
{
    lemma_found_iff_known(pairs, id);
    assert(route_ids(pairs).difference(seen.insert(id)) =~= route_ids(pairs).difference(seen));
}

/// The peer whose route the pair at step `k` of a trail carries.
pub open spec fn step_id(pairs: Seq<PeerRoutePairView>, steps: Seq<int>, k: int) -> u32 {
    pairs[steps[k]].route->0.peer_id
}

/// The cycle guard at work. Every step of a walk is the first pair of a peer
/// that had not been visited before the walk and has been after it; no peer
/// gets two steps; and each step uses up one of the peers left to visit, so a
/// walk has at most as many steps as there were such peers.
pub proof fn lemma_walk_visits_each_peer_once(
    pairs: Seq<PeerRoutePairView>,
    current: u32,
    seen: Set<u32>,
)
    ensures
        ({
            let t = follow(pairs, current, seen);
            &&& seen.subset_of(t.seen)
            &&& t.steps.len() + unvisited(pairs, t.seen) == unvisited(pairs, seen)
            &&& forall|k: int|
                0 <= k < t.steps.len() ==> {
                    &&& find_pair(pairs, #[trigger] step_id(pairs, t.steps, k), 0) == Some(
                        t.steps[k],
                    )
                    &&& 0 <= t.steps[k] < pairs.len()
                    &&& pairs[t.steps[k]].route is Some
                    &&& !seen.contains(step_id(pairs, t.steps, k))
                    &&& t.seen.contains(step_id(pairs, t.steps, k))
                }
            &&& forall|k1: int, k2: int|
                0 <= k1 < k2 < t.steps.len() ==> #[trigger] step_id(pairs, t.steps, k1)
                    != #[trigger] step_id(pairs, t.steps, k2)
        }),
    decreases unvisited(pairs, seen),
{
    let t = follow(pairs, current, seen);
    if !seen.contains(current) {
        lemma_find_pair(pairs, current, 0);
        match find_pair(pairs, current, 0) {
            None => {
                lemma_unvisited_unchanged(pairs, current, seen);
            },
            Some(i) => {
                lemma_unvisited_decreases(pairs, current, seen);
                let next = pairs[i].route->0.next_hop_peer_id;
                let seen1 = seen.insert(current);
                if next != current && next != 0 {
                    lemma_walk_visits_each_peer_once(pairs, next, seen1);
                    let rest = follow(pairs, next, seen1);
                    assert(t.steps == seq![i] + rest.steps);
                    assert(step_id(pairs, t.steps, 0) == current);
                    assert forall|k: int| 0 <= k < t.steps.len() implies {
                        &&& find_pair(pairs, #[trigger] step_id(pairs, t.steps, k), 0) == Some(
                            t.steps[k],
                        )
                        &&& 0 <= t.steps[k] < pairs.len()
                        &&& pairs[t.steps[k]].route is Some
                        &&& !seen.contains(step_id(pairs, t.steps, k))
                        &&& t.seen.contains(step_id(pairs, t.steps, k))
                    } by {
                        if k > 0 {
                            assert(t.steps[k] == rest.steps[k - 1]);
                            assert(step_id(pairs, t.steps, k) == step_id(pairs, rest.steps, k - 1));
                        }
                    }
                    assert forall|k1: int, k2: int|
                        0 <= k1 < k2 < t.steps.len() implies #[trigger] step_id(
                        pairs,
                        t.steps,
                        k1,
                    ) != #[trigger] step_id(pairs, t.steps, k2) by {
                        assert(step_id(pairs, t.steps, k2) == step_id(pairs, rest.steps, k2 - 1));
                        if k1 > 0 {
                            assert(step_id(pairs, t.steps, k1) == step_id(
                                pairs,
                                rest.steps,
                                k1 - 1,
                            ));
                        }
                    }
                } else {
                    assert(t.steps =~= seq![i]);
                    assert(step_id(pairs, t.steps, 0) == current);
                }
            },
        }
    }
}

/// A path is never longer than the number of distinct peers plus one,
/// whatever cycles the routing table holds.
pub proof fn lemma_path_length_bounded(
    pairs: Seq<PeerRoutePairView>,
    local: MyNodeInfoView,
    routes: Seq<RouteView>,
    target: RouteView,
    peer: Option<PeerInfoView>,
)
    ensures
        2 <= path(pairs, local, routes, target, peer).len() <= distinct_peers(
            pairs,
            target.peer_id,
        ) + 1,
{
    lemma_route_ids(pairs);
    let known = route_ids(pairs);
    match find_route(routes, target.peer_id, 0) {
        None => {},
        Some(k) => {
            let start = routes[k].next_hop_peer_id;
            let trail = follow(pairs, start, Set::empty());
            lemma_walk_visits_each_peer_once(pairs, start, Set::empty());
            assert(known.difference(Set::empty()) =~= known);
            if !trail.seen.contains(target.peer_id) {
                if known.contains(target.peer_id) {
                    assert(known.difference(trail.seen).contains(target.peer_id));
                }
            }
        },
    }
}

/// Whether the routing table and the pairs agree with the destination on
/// its route: the table's entry for the destination, if there is one, has the
/// destination's next hop, and the first pair that carries a route of the
/// destination is the destination's own. Both hold where identifiers are
/// unique and the pairs were made from the table.
pub open spec fn agrees_on_destination(
    pairs: Seq<PeerRoutePairView>,
    routes: Seq<RouteView>,
    target: RouteView,
    peer: Option<PeerInfoView>,
) -> bool {
    &&& find_route(routes, target.peer_id, 0) matches Some(k) ==> routes[k].next_hop_peer_id
        == target.next_hop_peer_id
    &&& find_pair(pairs, target.peer_id, 0) matches Some(i) ==> pairs[i] == (PeerRoutePairView {
        route: Some(target),
        peer,
    })
}

/// Whether no two rows of the routing table lead to the same peer.
pub open spec fn unique_route_ids(routes: Seq<RouteView>) -> bool {
    forall|i: int, j: int|
        0 <= i < j < routes.len() ==> (#[trigger] routes[i]).peer_id != (
        #[trigger] routes[j]).peer_id
}

/// Whether no two pairs carry a route of the same peer.
pub open spec fn unique_pair_ids(pairs: Seq<PeerRoutePairView>) -> bool {
    forall|i: int, j: int|
        0 <= i < j < pairs.len() && (#[trigger] pairs[i]).route is Some && (
        #[trigger] pairs[j]).route is Some ==> pairs[i].route->0.peer_id
            != pairs[j].route->0.peer_id
}

/// Where identifiers are unique, the row of a peer is found under the
/// peer's identifier.
pub proof fn lemma_unique_route_found(routes: Seq<RouteView>, k: int)
    requires
        unique_route_ids(routes),
        0 <= k < routes.len(),
    ensures
        find_route(routes, routes[k].peer_id, 0) == Some(k),
{
    lemma_find_route(routes, routes[k].peer_id, 0);
}

/// Where identifiers are unique, the pair of a peer is found under the
/// peer's identifier.
pub proof fn lemma_unique_pair_found(pairs: Seq<PeerRoutePairView>, i: int)
    requires
        unique_pair_ids(pairs),
        0 <= i < pairs.len(),
        pairs[i].route is Some,
    ensures
        find_pair(pairs, pairs[i].route->0.peer_id, 0) == Some(i),
{
    lemma_find_pair(pairs, pairs[i].route->0.peer_id, 0);
}

/// Where identifiers are unique, a destination that is a row of the routing
/// table and one of the pairs is agreed on by both.
pub proof fn lemma_unique_ids_agree(
    pairs: Seq<PeerRoutePairView>,
    routes: Seq<RouteView>,
    target: RouteView,
    peer: Option<PeerInfoView>,
)
    requires
        unique_route_ids(routes),
        unique_pair_ids(pairs),
        routes.contains(target),
        pairs.contains(PeerRoutePairView { route: Some(target), peer }),
    ensures
        agrees_on_destination(pairs, routes, target, peer),
{
    let k = choose|k: int| 0 <= k < routes.len() && routes[k] == target;
    lemma_unique_route_found(routes, k);
    let own = PeerRoutePairView { route: Some(target), peer };
    let i = choose|i: int| 0 <= i < pairs.len() && pairs[i] == own;
    lemma_unique_pair_found(pairs, i);
}

/// A destination that is its own next hop is reached in one hop: where
/// identifiers are unique, the path to a destination of the routing table
/// that names itself as next hop is exactly the local node and the
/// destination.
pub proof fn lemma_direct_destination(
    pairs: Seq<PeerRoutePairView>,
    local: MyNodeInfoView,
    routes: Seq<RouteView>,
    target: RouteView,
    peer: Option<PeerInfoView>,
)
    requires
        target.next_hop_peer_id == target.peer_id,
        unique_route_ids(routes),
        unique_pair_ids(pairs),
        routes.contains(target),
        pairs.contains(PeerRoutePairView { route: Some(target), peer }),
    ensures
        path(pairs, local, routes, target, peer) == seq![local_hop(local), hop_of(target, peer)],
{
    lemma_unique_ids_agree(pairs, routes, target, peer);
    lemma_direct_where_agreed(pairs, local, routes, target, peer);
}

/// The same under the weaker premise that table and pairs agree on the
/// destination, which does not ask for unique identifiers elsewhere.
pub proof fn lemma_direct_where_agreed(
    pairs: Seq<PeerRoutePairView>,
    local: MyNodeInfoView,
    routes: Seq<RouteView>,
    target: RouteView,
    peer: Option<PeerInfoView>,
)
    requires
        target.next_hop_peer_id == target.peer_id,
        agrees_on_destination(pairs, routes, target, peer),
    ensures
        path(pairs, local, routes, target, peer) == seq![local_hop(local), hop_of(target, peer)],
{
}

/// A destination behind one relay: where the routing table sends traffic for
/// the destination to a relay that is itself directly reachable and bears
/// another hostname, the path is the local node, the relay, the destination.
pub proof fn lemma_relayed_destination(
    pairs: Seq<PeerRoutePairView>,
    local: MyNodeInfoView,
    routes: Seq<RouteView>,
    target: RouteView,
    peer: Option<PeerInfoView>,
    relay: int,
)
    requires
        find_route(routes, target.peer_id, 0) matches Some(k) && find_pair(
            pairs,
            routes[k].next_hop_peer_id,
            0,
        ) == Some(relay),
        0 <= relay < pairs.len(),
        pairs[relay].route matches Some(r) && r.peer_id != target.peer_id && r.hostname
            != target.hostname && (r.next_hop_peer_id == r.peer_id || r.next_hop_peer_id == 0),
    ensures
        path(pairs, local, routes, target, peer) == seq![
            local_hop(local),
            pair_hop(pairs[relay]),
            hop_of(target, peer),
        ],
{
    let k = find_route(routes, target.peer_id, 0)->0;
    lemma_find_pair(pairs, routes[k].next_hop_peer_id, 0);
}

fn address_of(inet: &Option<Ipv4Inet>) -> (r: Option<u32>)
    ensures
        r == inet_address(*inet),
{
    match inet {
        Some(i) => match i.address {
            Some(a) => Some(a.addr),
            None => None,
        },
        None => None,
    }
}

/// Builds the hop of a remote node from its route and peer record.
pub fn hop_for(route: &Route, peer: Option<&PeerInfo>) -> (hop: NodeHopStats)
    ensures
        hop.deep_view() == hop_of(route.deep_view(), peer.deep_view()),
{
    let target_ip = match address_of(&route.ipv4_addr) {
        Some(a) => ipv4_text(a),
        None => String::new(),
    };
    NodeHopStats {
        target_ip,
        latency_us: hop_latency_us(peer),
        packet_loss: mean_loss_rate(peer),
        node_name: route.hostname.clone(),
    }
}

/// Builds the hop of the local node.
pub fn local_hop_for(node: &MyNodeInfo) -> (hop: NodeHopStats)
    ensures
        hop.deep_view() == local_hop(node.deep_view()),
{
    let target_ip = match address_of(&node.virtual_ipv4) {
        Some(a) => ipv4_text(a),
        None => node.hostname.clone(),
    };
    NodeHopStats {
        target_ip,
        latency_us: 0,
        packet_loss: LossRollup { terms: Vec::new(), divisor: 1 },
        node_name: node.hostname.clone(),
    }
}

/// The position of the first pair that carries the route of peer `id`.
pub fn find_pair_index(pairs: &Vec<PeerRoutePair>, id: u32) -> (r: Option<usize>)
    ensures
        match r {
            Some(i) => i < pairs.len() && find_pair(pairs.deep_view(), id, 0) == Some(i as int),
            None => find_pair(pairs.deep_view(), id, 0) is None,
        },
{
    let mut i: usize = 0;
    while i < pairs.len()
        invariant
            i <= pairs.len(),
            find_pair(pairs.deep_view(), id, 0) == find_pair(pairs.deep_view(), id, i as int),
        decreases pairs.len() - i,
    {
        match &pairs[i].route {
            Some(r) => {
                if r.peer_id == id {
                    return Some(i);
                }
            },
            None => {},
        }
        i += 1;
    }
    None
}

/// The position of the first route that leads to peer `id`.
pub fn find_route_index(routes: &Vec<Route>, id: u32) -> (r: Option<usize>)
    ensures
        match r {
            Some(k) => k < routes.len() && find_route(routes.deep_view(), id, 0) == Some(
                k as int,
            ),
            None => find_route(routes.deep_view(), id, 0) is None,
        },
{
    let mut i: usize = 0;
    while i < routes.len()
        invariant
            i <= routes.len(),
            find_route(routes.deep_view(), id, 0) == find_route(routes.deep_view(), id, i as int),
        decreases routes.len() - i,
    {
        if routes[i].peer_id == id {
            return Some(i);
        }
        i += 1;
    }
    None
}

/// Walks the next-hop chain from peer `start`, adding every peer it comes to
/// to `visited`, and returns the hops of the walk in order.
pub fn collect_hops(pairs: &Vec<PeerRoutePair>, start: u32, visited: &mut HashSet<u32>) -> (hops:
    Vec<NodeHopStats>)
    ensures
        hops.deep_view() == trail_hops(
            pairs.deep_view(),
            follow(pairs.deep_view(), start, old(visited)@).steps,
        ),
        final(visited)@ == follow(pairs.deep_view(), start, old(visited)@).seen,
        hops.len() + unvisited(pairs.deep_view(), final(visited)@) == unvisited(
            pairs.deep_view(),
            old(visited)@,
        ),
{
    let ghost all = pairs.deep_view();
    let ghost whole = follow(all, start, visited@);
    let ghost mut done: Seq<int> = Seq::empty();
    let mut hops: Vec<NodeHopStats> = Vec::new();
    let mut current = start;
    let mut finished = false;
    assert(done + whole.steps =~= whole.steps);
    while !finished
        invariant
            all == pairs.deep_view(),
            hops.deep_view() == trail_hops(all, done),
            !finished ==> whole.steps == done + follow(all, current, visited@).steps,
            !finished ==> whole.seen == follow(all, current, visited@).seen,
            finished ==> whole.steps == done,
            finished ==> whole.seen == visited@,
        decreases
            (if finished {
                0
            } else {
                1 + unvisited(all, visited@)
            }),
    {
        let ghost seen = visited@;
        if visited.contains(&current) {
            assert(done + Seq::<int>::empty() =~= done);
            finished = true;
        } else {
            visited.insert(current);
            match find_pair_index(pairs, current) {
                None => {
                    assert(done + Seq::<int>::empty() =~= done);
                    finished = true;
                },
                Some(i) => {
                    proof {
                        lemma_find_pair(all, current, 0);
                        lemma_unvisited_decreases(all, current, seen);
                        assert(all[i as int] == pairs[i as int].deep_view());
                    }
                    let pair = &pairs[i];
                    match &pair.route {
                        None => {
                            assert(false);
                        },
                        Some(route) => {
                            let hop = hop_for(route, pair.peer.as_ref());
                            let ghost before = hops.deep_view();
                            hops.push(hop);
                            let next = route.next_hop_peer_id;
                            proof {
                                assert(hops.deep_view() =~= before.push(pair_hop(all[i as int])));
                                assert(trail_hops(all, done.push(i as int)) =~= trail_hops(
                                    all,
                                    done,
                                ).push(pair_hop(all[i as int])));
                                if next != current && next != 0 {
                                    let rest = follow(all, next, seen.insert(current));
                                    assert(done + (seq![i as int] + rest.steps) =~= done.push(
                                        i as int,
                                    ) + rest.steps);
                                } else {
                                    assert(done + seq![i as int] =~= done.push(i as int));
                                }
                                done = done.push(i as int);
                            }
                            if next != current && next != 0 {
                                current = next;
                            } else {
                                finished = true;
                            }
                        },
                    }
                },
            }
        }
    }
    proof {
        lemma_walk_visits_each_peer_once(all, start, old(visited)@);
    }
    hops
}

/// Reconstructs the hop path from the local node to the destination whose
/// route is `target` and whose peer record, if any, is `peer`.
///
/// `pairs` are the paired routes the walk goes through and `routes` is the
/// local routing table, which gives the first next hop.
pub fn reconstruct_path(
    pairs: &Vec<PeerRoutePair>,
    local: &MyNodeInfo,
    routes: &Vec<Route>,
    target: &Route,
    peer: Option<&PeerInfo>,
) -> (hops: Vec<NodeHopStats>)
    ensures
        hops.deep_view() == path(
            pairs.deep_view(),
            local.deep_view(),
            routes.deep_view(),
            target.deep_view(),
            peer.deep_view(),
        ),
        2 <= hops.len() <= distinct_peers(pairs.deep_view(), target.peer_id) + 1,
{
    let mut hops: Vec<NodeHopStats> = Vec::new();
    hops.push(local_hop_for(local));
    match find_route_index(routes, target.peer_id) {
        None => {},
        Some(k) => {
            let mut visited: HashSet<u32> = HashSet::new();
            let mut walked = collect_hops(pairs, routes[k].next_hop_peer_id, &mut visited);
            hops.append(&mut walked);
            let last = hops.len() - 1;
            if hops[last].node_name != target.hostname && !visited.contains(&target.peer_id) {
                hops.push(hop_for(target, peer));
            }
        },
    }
    if hops.len() <= 1 {
        hops.push(hop_for(target, peer));
    }
    proof {
        lemma_path_length_bounded(
            pairs.deep_view(),
            local.deep_view(),
            routes.deep_view(),
            target.deep_view(),
            peer.deep_view(),
        );
    }
    hops
}

} // verus!
